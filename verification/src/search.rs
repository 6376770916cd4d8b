//! The search over the record store: `GET /api/search?id=..&name=..`.

use crate::error::ServerError;
use crate::number::{parse_decimal, read_decimal};
use crate::query::{parse_query_params, query_mapping, QueryParams};
use crate::response::Status;
use crate::step::{outcome_view, send, send_body, serve, serve_file, Step, StepView};
use crate::text::{chars_of, same_text, split, split_text, trim, trim_text, CharClass};
use crate::trusted::{
    array_fields, field_texts, json_array_fields, json_picked_text, picked_json, string_of,
};
use vstd::prelude::*;

verus! {

/// What the search reads of one object of the store.
#[derive(Clone, Debug, PartialEq, Eq)]
pub struct Record {
    /// The member `id` of the object, if it has one and that is a number
    /// that fits 64 bits without a sign.
    pub id: Option<u64>,
    /// The member `name` of the object, if it has one and that is a string.
    pub name: Option<String>,
}

impl View for Record {
    type V = (Option<u64>, Option<Seq<char>>);

    open spec fn view(&self) -> (Option<u64>, Option<Seq<char>>) {
        (
            self.id,
            match self.name {
                Some(name) => Some(name@),
                None => None,
            },
        )
    }
}

/// The parameters that the path of a search carries: those of the query
/// string after its question mark; none where the path has no question
/// mark, or more than one.
pub open spec fn path_mapping(path: Seq<char>) -> Result<Map<Seq<char>, Seq<char>>, ServerError> {
    let parts = split(path, "?"@);
    if parts.len() == 2 {
        query_mapping(parts[1])
    } else {
        Ok(Map::empty())
    }
}

/// The value of the parameter `key` without the white space around it; the
/// empty text where the query has no such parameter.
pub open spec fn parameter(params: Map<Seq<char>, Seq<char>>, key: Seq<char>) -> Seq<char> {
    if params.contains_key(key) {
        trim(params[key], CharClass::Space)
    } else {
        Seq::empty()
    }
}

/// The id and the name that a search asks for. The id must be a number that
/// fits 64 bits: a query without one, or with anything else in its place,
/// is invalid.
pub open spec fn search_terms(path: Seq<char>) -> Result<(u64, Seq<char>), ServerError> {
    match path_mapping(path) {
        Err(e) => Err(e),
        Ok(params) => match parse_decimal(parameter(params, "id"@), u64::MAX as nat) {
            Some(id) => Ok((id as u64, parameter(params, "name"@))),
            None => Err(ServerError::InvalidQuery),
        },
    }
}

/// Search terms as a mathematical value.
pub open spec fn terms_view(r: Result<(u64, String), ServerError>) -> Result<
    (u64, Seq<char>),
    ServerError,
> {
    match r {
        Ok((id, name)) => Ok((id, name@)),
        Err(e) => Err(e),
    }
}

/// The value of the parameter `key`, trimmed.
fn parameter_of(params: &QueryParams, key: &str) -> (out: Vec<char>)
    ensures
        out@ == parameter(params@, key@),
{
    match params.get(key) {
        Some(value) => trim_text(&chars_of(value.as_str()), CharClass::Space),
        None => Vec::new(),
    }
}

/// Reads the id and the name that the path of a search asks for.
pub fn parse_search_terms(path: &str) -> (r: Result<(u64, String), ServerError>)
    ensures
        terms_view(r) == search_terms(path@),
{
    let p = chars_of(path);
    let parts = split_text(&p, &chars_of("?"));
    let params = if parts.len() == 2 {
        let query = string_of(parts[1].as_slice());
        match parse_query_params(query.as_str()) {
            Ok(params) => params,
            Err(e) => {
                return Err(e);
            },
        }
    } else {
        QueryParams::new()
    };
    let id = parameter_of(&params, "id");
    let name = parameter_of(&params, "name");
    match read_decimal(&id, u64::MAX) {
        Some(n) => Ok((n, string_of(name.as_slice()))),
        None => Err(ServerError::InvalidQuery),
    }
}

/// The positions of the records among `items` whose id and name are both
/// present and equal to the ones asked for, in the order of the store.
pub open spec fn hits(items: Seq<(Option<u64>, Option<Seq<char>>)>, id: u64, name: Seq<char>) -> Seq<
    usize,
>
    decreases items.len(),
{
    if items.len() == 0 {
        Seq::empty()
    } else if items.last() == (Some(id), Some(name)) {
        hits(items.drop_last(), id, name).push((items.len() - 1) as usize)
    } else {
        hits(items.drop_last(), id, name)
    }
}

/// Finds the records with the given id and name among those that were read
/// from the store, and gives their positions.
pub fn select_records(items: &Vec<Record>, id: u64, name: &str) -> (out: Vec<usize>)
    ensures
        out@ == hits(field_texts(items@), id, name@),
{
    let wanted = chars_of(name);
    let mut out: Vec<usize> = Vec::new();
    let ghost all = field_texts(items@);
    let mut i: usize = 0;
    while i < items.len()
        invariant
            i <= items.len(),
            wanted@ == name@,
            all == field_texts(items@),
            out@ == hits(all.take(i as int), id, name@),
        decreases items.len() - i,
    {
        proof {
            let next = all.take(i + 1);
            assert(next.drop_last() =~= all.take(i as int));
        }
        let mut hit = false;
        if let Some(found_id) = items[i].id {
            if let Some(found_name) = &items[i].name {
                if found_id == id && same_text(&chars_of(found_name.as_str()), &wanted) {
                    hit = true;
                }
            }
        }
        if hit {
            out.push(i);
        }
        i += 1;
    }
    proof {
        assert(all.take(i as int) =~= all);
    }
    out
}

/// What the search answers once it has found records, given what the JSON
/// writer made of them.
pub open spec fn found_step(written: Option<Seq<char>>) -> Result<StepView, ServerError> {
    match written {
        Some(body) => Ok(send(Status::Success, "application/json"@, body)),
        None => Err(ServerError::Unserializable),
    }
}

/// What the search answers for a path and the text of the store: the
/// objects of the store whose id and name are the ones asked for, whole and
/// in the order of the store, as a JSON array; or the payload for nothing
/// found with status 404. The query is looked at before the store.
pub open spec fn search_outcome(path: Seq<char>, store: Seq<char>) -> Result<StepView, ServerError> {
    match search_terms(path) {
        Err(e) => Err(e),
        Ok((id, name)) => match json_array_fields(store, "id"@, "name"@) {
            None => Err(ServerError::BadStore),
            Some(items) => {
                let found = hits(items, id, name);
                if found.len() == 0 {
                    Ok(serve("data/not_found.json"@, Status::NotFound, "application/json"@))
                } else {
                    found_step(json_picked_text(store, found))
                }
            },
        },
    }
}

/// Answers a search that has found records; `written` is the JSON text of
/// these records, or `None` where they could not be written.
pub fn found_reply(written: Option<String>) -> (r: Result<Step, ServerError>)
    ensures
        outcome_view(r) == found_step(
            match written {
                Some(body) => Some(body@),
                None => None,
            },
        ),
{
    match written {
        Some(body) => Ok(send_body(Status::Success, "application/json", body)),
        None => Err(ServerError::Unserializable),
    }
}

/// Answers `GET /api/search` from the text of the record store.
pub fn handle_search_request(path: &str, store: &str) -> (r: Result<Step, ServerError>)
    ensures
        outcome_view(r) == search_outcome(path@, store@),
{
    let (id, name) = match parse_search_terms(path) {
        Ok(terms) => terms,
        Err(e) => {
            return Err(e);
        },
    };
    let items = match array_fields(store, "id", "name") {
        Ok(Some(items)) => items,
        Ok(None) => {
            return Err(ServerError::BadStore);
        },
        Err(_) => {
            return Err(ServerError::BadStore);
        },
    };
    let found = select_records(&items, id, name.as_str());
    if found.len() == 0 {
        Ok(serve_file("data/not_found.json", Status::NotFound, "application/json"))
    } else {
        let written = match picked_json(store, &found) {
            Ok(body) => body,
            Err(_) => None,
        };
        found_reply(written)
    }
}

} // verus!
