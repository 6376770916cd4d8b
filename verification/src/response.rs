//! Responses: their status, their content type and their layout on the wire.

use crate::number::{decimal_text, write_decimal};
use crate::text::{chars_of, ends_with, has_suffix};
use crate::trusted::string_of;
use vstd::prelude::*;
use vstd::string::StringExecFns;

verus! {

/// The statuses that the server answers with.
#[derive(Clone, Copy, Debug, PartialEq, Eq, Structural)]
pub enum Status {
    /// 200
    Success,
    /// 403
    Forbidden,
    /// 404
    NotFound,
    /// 501
    NotImplemented,
}

impl Status {
    /// The numeric status code.
    pub open spec fn code_value(self) -> u16 {
        match self {
            Status::Success => 200,
            Status::Forbidden => 403,
            Status::NotFound => 404,
            Status::NotImplemented => 501,
        }
    }

    /// The numeric status code.
    pub fn code(&self) -> (n: u16)
        ensures
            n == self.code_value(),
    {
        match self {
            Status::Success => 200,
            Status::Forbidden => 403,
            Status::NotFound => 404,
            Status::NotImplemented => 501,
        }
    }

    /// The first line of a response with this status.
    pub open spec fn line_text(self) -> Seq<char> {
        match self {
            Status::Success => "HTTP/1.1 200 OK"@,
            Status::Forbidden => "HTTP/1.1 403 Data format error"@,
            Status::NotFound => "HTTP/1.1 404 NOT FOUND"@,
            Status::NotImplemented => "HTTP/1.1 501 Not Implemented"@,
        }
    }

    /// The first line of a response with this status.
    pub fn line(&self) -> (out: &'static str)
        ensures
            out@ == self.line_text(),
    {
        match self {
            Status::Success => "HTTP/1.1 200 OK",
            Status::Forbidden => "HTTP/1.1 403 Data format error",
            Status::NotFound => "HTTP/1.1 404 NOT FOUND",
            Status::NotImplemented => "HTTP/1.1 501 Not Implemented",
        }
    }
}

/// The content type that belongs to a file name, by its extension alone.
pub open spec fn content_type_of(path: Seq<char>) -> Seq<char> {
    if ends_with(path, ".html"@) {
        "text/html"@
    } else if ends_with(path, ".js"@) {
        "text/javascript"@
    } else if ends_with(path, ".json"@) {
        "application/json"@
    } else if ends_with(path, ".css"@) {
        "text/css"@
    } else {
        "text/plain"@
    }
}

/// The content type that belongs to a file name, by its extension alone.
pub fn detect_content_type(path: &str) -> (out: &'static str)
    ensures
        out@ == content_type_of(path@),
{
    let p = chars_of(path);
    if has_suffix(&p, &chars_of(".html")) {
        "text/html"
    } else if has_suffix(&p, &chars_of(".js")) {
        "text/javascript"
    } else if has_suffix(&p, &chars_of(".json")) {
        "application/json"
    } else if has_suffix(&p, &chars_of(".css")) {
        "text/css"
    } else {
        "text/plain"
    }
}

/// What is sent back to the client.
#[derive(Clone, Debug, PartialEq, Eq)]
pub struct Response {
    /// The status, which gives the first line.
    pub status: Status,
    /// The value of the `Content-Type` header.
    pub content_type: &'static str,
    /// What follows the blank line.
    pub body: String,
}

/// A response as a mathematical value.
pub struct ResponseView {
    /// The status, which gives the first line.
    pub status: Status,
    /// The value of the `Content-Type` header.
    pub content_type: Seq<char>,
    /// What follows the blank line.
    pub body: Seq<char>,
}

impl View for Response {
    type V = ResponseView;

    open spec fn view(&self) -> ResponseView {
        ResponseView { status: self.status, content_type: self.content_type@, body: self.body@ }
    }
}

/// The number of bytes that `body` takes in UTF-8.
pub open spec fn byte_length(body: Seq<char>) -> nat {
    vstd::utf8::encode_utf8(body).len()
}

/// The layout of a response on the wire: the status line, the two headers,
/// a blank line and the body. `Content-Length` is the number of bytes of the
/// body.
pub open spec fn wire_text(r: ResponseView) -> Seq<char> {
    r.status.line_text() + "\r\nContent-Type: "@ + r.content_type + "\r\nContent-Length: "@
        + decimal_text(byte_length(r.body)) + "\r\n\r\n"@ + r.body
}

impl Response {
    /// The text to write to the connection.
    pub fn to_wire(&self) -> (out: String)
        ensures
            out@ == wire_text(self@),
    {
        let length: usize = self.body.as_str().as_bytes().len();
        let digits = string_of(write_decimal(length as u64).as_slice());
        let mut out = String::from_str(self.status.line());
        out.append("\r\nContent-Type: ");
        out.append(self.content_type);
        out.append("\r\nContent-Length: ");
        out.append(digits.as_str());
        out.append("\r\n\r\n");
        out.append(self.body.as_str());
        out
    }
}

} // verus!
