//! The handlers of the two endpoints that take a body: the echo of form
//! data and the upload, which goes by the content type.

use crate::error::ServerError;
use crate::request::{body_text, content_type_header, find_content_type, request_body};
use crate::response::Status;
use crate::step::{outcome_view, send, send_body, serve, serve_file, Step, StepView};
use crate::text::{chars_of, same_text};
use crate::trusted::{
    decode_lossy, found_texts, json_object_text, lossy_text, object_json, pattern_found,
    pattern_groups, regex_captures, regex_is_match,
};
use vstd::prelude::*;
use vstd::utf8::{decode_utf8, valid_utf8};

verus! {

/// The pattern that a body must match, from its first character to its
/// last, to be echoed.
pub open spec fn echo_pattern() -> Seq<char> {
    "^id=[0-9]+&name=[a-zA-Z0-9]+$"@
}

/// The pattern that uploaded form data must match, from its first
/// character to its last; its two groups are the id and the name.
pub open spec fn form_pattern() -> Seq<char> {
    "^id=(\\d+)&name=([a-zA-Z0-9]+)$"@
}

/// What the echo answers for a body, given what the pattern engine said of
/// it: the body itself where it matches the pattern, the error text with
/// status 403 where it does not.
pub open spec fn echo_step(body: Seq<char>, matched: Option<bool>) -> Result<
    StepView,
    ServerError,
> {
    match matched {
        None => Err(ServerError::BadPattern),
        Some(true) => Ok(send(Status::Success, "application/x-www-form-urlencoded"@, body)),
        Some(false) => Ok(serve("data/error.txt"@, Status::Forbidden, "text/plain"@)),
    }
}

/// What the echo answers for a request.
pub open spec fn echo_outcome(text: Seq<char>) -> Result<StepView, ServerError> {
    match body_text(text) {
        None => Err(ServerError::NoBody),
        Some(body) => echo_step(body, regex_is_match(echo_pattern(), body)),
    }
}

/// Answers an echo request whose body is `body`; `matched` says whether
/// the body matches the pattern, and is `None` where the pattern was
/// rejected.
pub fn echo_reply(body: String, matched: Option<bool>) -> (r: Result<Step, ServerError>)
    ensures
        outcome_view(r) == echo_step(body@, matched),
{
    match matched {
        None => Err(ServerError::BadPattern),
        Some(true) => Ok(send_body(Status::Success, "application/x-www-form-urlencoded", body)),
        Some(false) => Ok(serve_file("data/error.txt", Status::Forbidden, "text/plain")),
    }
}

/// Answers `POST /api/echo`.
pub fn handle_echo_request(buffer: &[u8]) -> (r: Result<Step, ServerError>)
    ensures
        outcome_view(r) == echo_outcome(lossy_text(buffer@)),
        valid_utf8(buffer@) ==> outcome_view(r) == echo_outcome(decode_utf8(buffer@)),
{
    let text = decode_lossy(buffer);
    let body = match request_body(text.as_str()) {
        Ok(body) => body,
        Err(e) => {
            return Err(e);
        },
    };
    let matched = match pattern_found("^id=[0-9]+&name=[a-zA-Z0-9]+$", body.as_str()) {
        Ok(found) => Some(found),
        Err(_) => None,
    };
    echo_reply(body, matched)
}

/// The id and the name that a match of the form pattern holds: its groups
/// 1 and 2, if both took part.
pub open spec fn form_fields(groups: Seq<Option<Seq<char>>>) -> Option<(Seq<char>, Seq<char>)> {
    if groups.len() >= 3 && groups[1] is Some && groups[2] is Some {
        Some((groups[1]->0, groups[2]->0))
    } else {
        None
    }
}

/// What the upload answers for form data, given the match of the form
/// pattern: a JSON object with the id and the name where both were found,
/// the error payload with status 403 otherwise.
pub open spec fn form_step(found: Option<Seq<Option<Seq<char>>>>) -> StepView {
    match found {
        Some(groups) => match form_fields(groups) {
            Some((id, name)) => send(
                Status::Success,
                "application/json"@,
                json_object_text("id"@, id, "name"@, name),
            ),
            None => serve("data/error.json"@, Status::Forbidden, "application/json"@),
        },
        None => serve("data/error.json"@, Status::Forbidden, "application/json"@),
    }
}

/// What the upload answers for a request: by its content type, the body
/// as it came, the form data as a JSON object, or the page for what is not
/// found.
pub open spec fn upload_outcome(text: Seq<char>) -> Result<StepView, ServerError> {
    match content_type_header(text) {
        Err(e) => Err(e),
        Ok(content_type) => if content_type == "application/json"@ {
            match body_text(text) {
                None => Err(ServerError::NoBody),
                Some(body) => Ok(send(Status::Success, "application/json"@, body)),
            }
        } else if content_type == "application/x-www-form-urlencoded"@ {
            match body_text(text) {
                None => Err(ServerError::NoBody),
                Some(body) => match regex_captures(form_pattern(), body) {
                    None => Err(ServerError::BadPattern),
                    Some(found) => Ok(form_step(found)),
                },
            }
        } else {
            Ok(serve("static/404.html"@, Status::NotFound, "text/html"@))
        },
    }
}

/// Answers an upload of form data; `found` holds the groups of the match of
/// the form pattern, if there was one.
pub fn form_reply(found: Option<Vec<Option<String>>>) -> (step: Step)
    ensures
        step@ == form_step(found_texts(found)),
{
    if let Some(groups) = found {
        if groups.len() >= 3 {
            if let Some(id) = &groups[1] {
                if let Some(name) = &groups[2] {
                    let body = object_json("id", id.as_str(), "name", name.as_str());
                    return send_body(Status::Success, "application/json", body);
                }
            }
        }
    }
    serve_file("data/error.json", Status::Forbidden, "application/json")
}

/// Answers `POST /api/upload`.
pub fn handle_upload_request(buffer: &[u8]) -> (r: Result<Step, ServerError>)
    ensures
        outcome_view(r) == upload_outcome(lossy_text(buffer@)),
        valid_utf8(buffer@) ==> outcome_view(r) == upload_outcome(decode_utf8(buffer@)),
{
    let text = decode_lossy(buffer);
    let content_type = match find_content_type(text.as_str()) {
        Ok(value) => chars_of(value.as_str()),
        Err(e) => {
            return Err(e);
        },
    };
    if same_text(&content_type, &chars_of("application/json")) {
        match request_body(text.as_str()) {
            Ok(body) => Ok(send_body(Status::Success, "application/json", body)),
            Err(e) => Err(e),
        }
    } else if same_text(&content_type, &chars_of("application/x-www-form-urlencoded")) {
        let body = match request_body(text.as_str()) {
            Ok(body) => body,
            Err(e) => {
                return Err(e);
            },
        };
        match pattern_groups("^id=(\\d+)&name=([a-zA-Z0-9]+)$", body.as_str()) {
            Ok(found) => Ok(form_reply(found)),
            Err(_) => Err(ServerError::BadPattern),
        }
    } else {
        Ok(serve_file("static/404.html", Status::NotFound, "text/html"))
    }
}

} // verus!
