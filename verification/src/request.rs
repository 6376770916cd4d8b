//! Reading a request out of the bytes that arrived: the request line, the
//! body and the `Content-Type` header.
//!
//! The buffer has a fixed size, so a short request is followed by padding
//! of U+0000. The padding is taken away before anything is looked at.

use crate::error::ServerError;
use crate::text::{
    after_first, before_first, chars_of, cut, lemma_run_end, run_end, same_text, skip_run,
    slice_of, split, split_text, texts, trim, trim_text, CharClass,
};
use crate::trusted::{decode_lossy, lossy_text, string_of};
use vstd::prelude::*;
use vstd::utf8::{decode_utf8, valid_utf8};

verus! {

/// The request without the padding at its ends.
pub open spec fn unpadded(text: Seq<char>) -> Seq<char> {
    trim(text, CharClass::Nul)
}

/// The first line of the request: what stands before the first line feed.
pub open spec fn first_line(text: Seq<char>) -> Seq<char> {
    before_first(unpadded(text), "\n"@)
}

/// Where the word begins that follows position `i` of `line`.
pub open spec fn word_start(line: Seq<char>, i: int) -> int {
    run_end(line, CharClass::Space, i)
}

/// Where the word ends that begins at position `i` of `line`.
pub open spec fn word_end(line: Seq<char>, i: int) -> int {
    run_end(line, CharClass::Word, i)
}

/// The method, the path and the protocol of the request: the first three
/// words of its first line, where words are set apart by white space. A
/// first line with fewer than three words is malformed.
pub open spec fn request_line(text: Seq<char>) -> Result<
    (Seq<char>, Seq<char>, Seq<char>),
    ServerError,
> {
    let line = first_line(text);
    let method_start = word_start(line, 0);
    let method_end = word_end(line, method_start);
    let path_start = word_start(line, method_end);
    let path_end = word_end(line, path_start);
    let protocol_start = word_start(line, path_end);
    let protocol_end = word_end(line, protocol_start);
    if protocol_start < line.len() {
        Ok(
            (
                line.subrange(method_start, method_end),
                line.subrange(path_start, path_end),
                line.subrange(protocol_start, protocol_end),
            ),
        )
    } else {
        Err(ServerError::MalformedRequest)
    }
}

/// A parsed request line as a mathematical value.
pub open spec fn line_view(r: Result<(String, String, String), ServerError>) -> Result<
    (Seq<char>, Seq<char>, Seq<char>),
    ServerError,
> {
    match r {
        Ok((method, path, protocol)) => Ok((method@, path@, protocol@)),
        Err(e) => Err(e),
    }
}

/// The method, the path and the protocol of a request that parses are never
/// empty, and none of them holds white space.
pub proof fn lemma_request_line_words(text: Seq<char>)
    requires
        request_line(text) is Ok,
    ensures
        ({
            let (method, path, protocol) = request_line(text)->Ok_0;
            &&& method.len() > 0
            &&& path.len() > 0
            &&& protocol.len() > 0
            &&& forall|i: int| 0 <= i < method.len() ==> !crate::text::is_space(method[i])
            &&& forall|i: int| 0 <= i < path.len() ==> !crate::text::is_space(path[i])
            &&& forall|i: int| 0 <= i < protocol.len() ==> !crate::text::is_space(protocol[i])
        }),
{
    let line = first_line(text);
    let method_start = word_start(line, 0);
    lemma_run_end(line, CharClass::Space, 0);
    let method_end = word_end(line, method_start);
    lemma_run_end(line, CharClass::Word, method_start);
    let path_start = word_start(line, method_end);
    lemma_run_end(line, CharClass::Space, method_end);
    let path_end = word_end(line, path_start);
    lemma_run_end(line, CharClass::Word, path_start);
    let protocol_start = word_start(line, path_end);
    lemma_run_end(line, CharClass::Space, path_end);
    let protocol_end = word_end(line, protocol_start);
    lemma_run_end(line, CharClass::Word, protocol_start);
}

/// Reads the request line of a request that is given as text.
pub fn parse_request_line(text: &str) -> (r: Result<(String, String, String), ServerError>)
    ensures
        line_view(r) == request_line(text@),
{
    let all = chars_of(text);
    let request = trim_text(&all, CharClass::Nul);
    let (line, _) = cut(&request, &chars_of("\n"));
    let method_start = skip_run(&line, CharClass::Space, 0);
    let method_end = skip_run(&line, CharClass::Word, method_start);
    let path_start = skip_run(&line, CharClass::Space, method_end);
    let path_end = skip_run(&line, CharClass::Word, path_start);
    let protocol_start = skip_run(&line, CharClass::Space, path_end);
    let protocol_end = skip_run(&line, CharClass::Word, protocol_start);
    if protocol_start < line.len() {
        let method = string_of(slice_of(&line, method_start, method_end).as_slice());
        let path = string_of(slice_of(&line, path_start, path_end).as_slice());
        let protocol = string_of(slice_of(&line, protocol_start, protocol_end).as_slice());
        Ok((method, path, protocol))
    } else {
        Err(ServerError::MalformedRequest)
    }
}

/// Reads the request line out of the buffer that was filled from the
/// connection.
pub fn parse_request(buffer: &[u8]) -> (r: Result<(String, String, String), ServerError>)
    ensures
        line_view(r) == request_line(lossy_text(buffer@)),
        valid_utf8(buffer@) ==> line_view(r) == request_line(decode_utf8(buffer@)),
{
    let text = decode_lossy(buffer);
    parse_request_line(text.as_str())
}

/// The body of the request: what follows the first blank line.
pub open spec fn body_text(text: Seq<char>) -> Option<Seq<char>> {
    after_first(unpadded(text), "\r\n\r\n"@)
}

/// The head of the request: what stands before the first blank line.
pub open spec fn head_text(text: Seq<char>) -> Seq<char> {
    before_first(unpadded(text), "\r\n\r\n"@)
}

/// The body of a request that is given as text. A request without a blank
/// line has no body.
pub fn request_body(text: &str) -> (r: Result<String, ServerError>)
    ensures
        match r {
            Ok(body) => body_text(text@) == Some(body@),
            Err(e) => e == ServerError::NoBody && body_text(text@) is None,
        },
{
    let all = chars_of(text);
    let request = trim_text(&all, CharClass::Nul);
    let (_, rest) = cut(&request, &chars_of("\r\n\r\n"));
    match rest {
        Some(body) => Ok(string_of(body.as_slice())),
        None => Err(ServerError::NoBody),
    }
}

/// The name and the value of a header line: what stands before and after
/// its first colon, without the white space around either. A line without
/// a colon is no header.
pub open spec fn header_of(line: Seq<char>) -> Option<(Seq<char>, Seq<char>)> {
    match after_first(line, ":"@) {
        Some(value) => Some(
            (trim(before_first(line, ":"@), CharClass::Space), trim(value, CharClass::Space)),
        ),
        None => None,
    }
}

/// The value of the first header called `name` among `lines[k..]`.
pub open spec fn header_value(lines: Seq<Seq<char>>, name: Seq<char>, k: int) -> Option<
    Seq<char>,
>
    decreases lines.len() - k,
{
    if k < 0 || k >= lines.len() {
        None
    } else {
        match header_of(lines[k]) {
            Some((n, v)) => if n == name {
                Some(v)
            } else {
                header_value(lines, name, k + 1)
            },
            None => header_value(lines, name, k + 1),
        }
    }
}

/// The lines of the head that follow the request line, each ended by a
/// carriage return and a line feed, may stand in any order; the content
/// type is the value of the first one called `Content-Type`.
pub open spec fn content_type_header(text: Seq<char>) -> Result<Seq<char>, ServerError> {
    match header_value(split(head_text(text), "\r\n"@), "Content-Type"@, 1) {
        Some(value) => Ok(value),
        None => Err(ServerError::MissingContentType),
    }
}

/// A header value as a mathematical value.
pub open spec fn value_view(r: Result<String, ServerError>) -> Result<Seq<char>, ServerError> {
    match r {
        Ok(value) => Ok(value@),
        Err(e) => Err(e),
    }
}

/// Looks up the `Content-Type` header of a request that is given as text.
pub fn find_content_type(text: &str) -> (r: Result<String, ServerError>)
    ensures
        value_view(r) == content_type_header(text@),
{
    let all = chars_of(text);
    let request = trim_text(&all, CharClass::Nul);
    let (head, _) = cut(&request, &chars_of("\r\n\r\n"));
    let lines = split_text(&head, &chars_of("\r\n"));
    let name = chars_of("Content-Type");
    let colon = chars_of(":");
    let mut k: usize = 1;
    while k < lines.len()
        invariant
            1 <= k,
            colon@ == ":"@,
            name@ == "Content-Type"@,
            texts(lines@) == split(head_text(text@), "\r\n"@),
            header_value(texts(lines@), name@, 1) == header_value(texts(lines@), name@, k as int),
        decreases lines.len() - k,
    {
        let (before, after) = cut(&lines[k], &colon);
        if let Some(value) = after {
            let found = trim_text(&before, CharClass::Space);
            if same_text(&found, &name) {
                let value = trim_text(&value, CharClass::Space);
                return Ok(string_of(value.as_slice()));
            }
        }
        k += 1;
    }
    Err(ServerError::MissingContentType)
}

/// Looks up the `Content-Type` header in the buffer that was filled from
/// the connection.
pub fn extract_content_type(buffer: &[u8]) -> (r: Result<String, ServerError>)
    ensures
        value_view(r) == content_type_header(lossy_text(buffer@)),
        valid_utf8(buffer@) ==> value_view(r) == content_type_header(decode_utf8(buffer@)),
{
    let text = decode_lossy(buffer);
    find_content_type(text.as_str())
}

} // verus!
