use http_server::error::ServerError;
use http_server::response::{Response, Status};
use http_server::router::resume;
use http_server::search::{
    found_reply, handle_search_request, parse_search_terms, select_records, Record,
};
use http_server::step::{Pending, Step};

const STORE: &str = "[{\"id\":1,\"name\":\"Foo\"}]";

const NOT_FOUND: &str = "{\"error\":\"not found\"}";

fn sent(status: Status, content_type: &'static str, body: &str) -> Result<Step, ServerError> {
    Ok(Step::Send(Response { status, content_type, body: body.to_string() }))
}

fn not_found() -> Result<Step, ServerError> {
    Ok(Step::Read {
        path: "data/not_found.json".to_string(),
        then: Pending::Body { status: Status::NotFound, content_type: "application/json" },
    })
}

#[test]
fn search_finds_the_one_record() {
    assert_eq!(
        handle_search_request("/api/search?id=1&name=Foo", STORE),
        sent(Status::Success, "application/json", "[{\"id\":1,\"name\":\"Foo\"}]")
    );
}

#[test]
fn search_result_is_an_array_with_that_record() {
    let step = handle_search_request("/api/search?id=1&name=Foo", STORE);
    let body = match step {
        Ok(Step::Send(response)) => response.body,
        other => panic!("{:?}", other),
    };
    let value: serde_json::Value = serde_json::from_str(&body).unwrap();
    let items = value.as_array().unwrap();
    assert_eq!(items.len(), 1);
    assert_eq!(items[0].get("id").and_then(|v| v.as_u64()), Some(1));
    assert_eq!(items[0].get("name").and_then(|v| v.as_str()), Some("Foo"));
}

#[test]
fn search_without_a_match_answers_with_the_fixed_payload() {
    let step = handle_search_request("/api/search?id=999&name=Nope", STORE);
    assert_eq!(step, not_found());
    let pending = match step {
        Ok(Step::Read { then, .. }) => then,
        other => panic!("{:?}", other),
    };
    assert_eq!(
        resume(pending, Some(NOT_FOUND.to_string())),
        sent(Status::NotFound, "application/json", NOT_FOUND)
    );
}

#[test]
fn search_needs_both_to_agree() {
    assert_eq!(handle_search_request("/api/search?id=1&name=Bar", STORE), not_found());
    assert_eq!(handle_search_request("/api/search?id=2&name=Foo", STORE), not_found());
    assert_eq!(handle_search_request("/api/search?id=1&name=foo", STORE), not_found());
    assert_eq!(handle_search_request("/api/search?id=1", STORE), not_found());
}

#[test]
fn search_keeps_the_order_of_the_store() {
    let store = "[{\"id\":2,\"name\":\"b\"},{\"id\":1,\"name\":\"a\",\"extra\":true},\
                 {\"name\":\"a\"},{\"id\":\"1\",\"name\":\"a\"},{\"id\":1,\"name\":7},\
                 7,{\"id\":-1,\"name\":\"a\"},{\"id\":1,\"name\":\"a\"}]";
    assert_eq!(
        handle_search_request("/api/search?name=a&id=1", store),
        sent(
            Status::Success,
            "application/json",
            "[{\"extra\":true,\"id\":1,\"name\":\"a\"},{\"id\":1,\"name\":\"a\"}]"
        )
    );
}

#[test]
fn search_trims_its_parameters() {
    assert_eq!(
        handle_search_request("/api/search?id= 1 &name= Foo ", STORE),
        sent(Status::Success, "application/json", "[{\"id\":1,\"name\":\"Foo\"}]")
    );
}

#[test]
fn search_with_a_bad_id_is_an_invalid_query() {
    for path in [
        "/api/search?id=abc&name=Foo",
        "/api/search?id=&name=Foo",
        "/api/search?id=1.0&name=Foo",
        "/api/search?id=-1&name=Foo",
        "/api/search?id=18446744073709551616&name=Foo",
        "/api/search?name=Foo",
        "/api/search",
        "/api/search?id=1?name=Foo",
    ] {
        assert_eq!(handle_search_request(path, STORE), Err(ServerError::InvalidQuery));
    }
}

#[test]
fn search_with_a_bad_query_is_an_invalid_query() {
    assert_eq!(handle_search_request("/api/search?id", STORE), Err(ServerError::InvalidQuery));
    assert_eq!(handle_search_request("/api/search?", STORE), Err(ServerError::InvalidQuery));
    assert_eq!(
        handle_search_request("/api/search?id=1&name", STORE),
        Err(ServerError::InvalidQuery)
    );
}

#[test]
fn search_needs_a_json_array() {
    assert_eq!(
        handle_search_request("/api/search?id=1&name=Foo", "{\"id\":1,\"name\":\"Foo\"}"),
        Err(ServerError::BadStore)
    );
    assert_eq!(
        handle_search_request("/api/search?id=1&name=Foo", "[{\"id\":1"),
        Err(ServerError::BadStore)
    );
    assert_eq!(handle_search_request("/api/search?id=1&name=Foo", ""), Err(ServerError::BadStore));
}

#[test]
fn query_is_looked_at_before_the_store() {
    assert_eq!(handle_search_request("/api/search?id=x", "no json"), Err(ServerError::InvalidQuery));
}

#[test]
fn search_in_an_empty_store_finds_nothing() {
    assert_eq!(handle_search_request("/api/search?id=1&name=Foo", "[]"), not_found());
}

#[test]
fn search_writes_names_as_json_strings() {
    let store = "[{\"id\":3,\"name\":\"a\\\"b\"}]";
    assert_eq!(
        handle_search_request("/api/search?id=3&name=a\"b", store),
        sent(Status::Success, "application/json", "[{\"id\":3,\"name\":\"a\\\"b\"}]")
    );
}

#[test]
fn search_terms_are_the_id_and_the_name() {
    assert_eq!(parse_search_terms("/api/search?id=1&name=Foo"), Ok((1, "Foo".to_string())));
    assert_eq!(parse_search_terms("/api/search?id=+7"), Ok((7, String::new())));
    assert_eq!(
        parse_search_terms("/api/search?id=18446744073709551615&name=\u{a0}x y\t"),
        Ok((u64::MAX, "x y".to_string()))
    );
    assert_eq!(parse_search_terms("/api/search?id=1&id=2&name=a&name=b"), Ok((2, "b".to_string())));
}

fn record(id: Option<u64>, name: Option<&str>) -> Record {
    Record { id, name: name.map(|s| s.to_string()) }
}

#[test]
fn select_records_filters_by_both_fields() {
    let items = vec![
        record(Some(1), Some("a")),
        record(Some(1), None),
        record(None, Some("a")),
        record(Some(2), Some("a")),
        record(Some(1), Some("b")),
        record(Some(1), Some("a")),
    ];
    assert_eq!(select_records(&items, 1, "a"), vec![0, 5]);
    assert_eq!(select_records(&items, 2, "a"), vec![3]);
    assert_eq!(select_records(&items, 3, "a"), Vec::<usize>::new());
    assert_eq!(select_records(&vec![], 1, "a"), Vec::<usize>::new());
}

#[test]
fn search_returns_the_stored_objects_whole() {
    let store = "[{\"name\":\"Foo\",\"tags\":[\"x\",{\"y\":null}],\"id\":1,\"age\":2.5},\
                 {\"id\":2,\"name\":\"Foo\"}]";
    let step = handle_search_request("/api/search?id=1&name=Foo", store);
    let body = match step {
        Ok(Step::Send(response)) => response.body,
        other => panic!("{:?}", other),
    };
    assert_eq!(body, "[{\"age\":2.5,\"id\":1,\"name\":\"Foo\",\"tags\":[\"x\",{\"y\":null}]}]");
    let whole: serde_json::Value = serde_json::from_str(store).unwrap();
    let found: serde_json::Value = serde_json::from_str(&body).unwrap();
    assert_eq!(found.as_array().map(|a| a.len()), Some(1));
    assert_eq!(found.get(0), whole.get(0));
}

#[test]
fn found_reply_sends_what_was_written() {
    assert_eq!(
        found_reply(Some("[]".to_string())),
        sent(Status::Success, "application/json", "[]")
    );
    assert_eq!(found_reply(None), Err(ServerError::Unserializable));
}
