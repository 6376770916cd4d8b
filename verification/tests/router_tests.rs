use http_server::error::ServerError;
use http_server::response::{Response, Status};
use http_server::router::{handle_connection, read_static_file, resume, route, Route};
use http_server::step::{send_body, serve_file, Pending, Step};

fn padded(request: &str) -> Vec<u8> {
    let mut buffer = vec![0u8; 1024];
    buffer[..request.len()].copy_from_slice(request.as_bytes());
    buffer
}

fn get(path: &str) -> Vec<u8> {
    padded(&format!("GET {} HTTP/1.1\r\nHost: localhost\r\n\r\n", path))
}

fn sent(status: Status, content_type: &'static str, body: &str) -> Result<Step, ServerError> {
    Ok(Step::Send(Response { status, content_type, body: body.to_string() }))
}

fn asked(path: &str, status: Status, content_type: &'static str) -> Result<Step, ServerError> {
    Ok(Step::Read { path: path.to_string(), then: Pending::Body { status, content_type } })
}

fn body(status: Status, content_type: &'static str) -> Pending {
    Pending::Body { status, content_type }
}

#[test]
fn exact_routes() {
    assert_eq!(route("GET", "/"), Route::Index);
    assert_eq!(route("GET", "/index.html"), Route::Index);
    assert_eq!(route("GET", "/501.html"), Route::NotImplementedPage);
    assert_eq!(route("GET", "/api/check"), Route::Check);
    assert_eq!(route("GET", "/api/list"), Route::List);
    assert_eq!(route("POST", "/api/echo"), Route::Echo);
    assert_eq!(route("POST", "/api/upload"), Route::Upload);
}

#[test]
fn prefix_and_suffix_routes() {
    assert_eq!(route("GET", "/api/search"), Route::Search);
    assert_eq!(route("GET", "/api/search?id=1&name=Foo"), Route::Search);
    assert_eq!(route("GET", "/api/searching.css"), Route::Search);
    assert_eq!(route("GET", "/about.html"), Route::Asset);
    assert_eq!(route("GET", "/js/app.js"), Route::Asset);
    assert_eq!(route("GET", "/api/list.json"), Route::Asset);
    assert_eq!(route("GET", "/style.css"), Route::Asset);
    assert_eq!(route("GET", ".css"), Route::Asset);
}

#[test]
fn what_matches_no_rule_is_missing() {
    assert_eq!(route("GET", "/api/echo"), Route::Missing);
    assert_eq!(route("GET", "/api/upload"), Route::Missing);
    assert_eq!(route("POST", "/"), Route::Missing);
    assert_eq!(route("POST", "/index.html"), Route::Missing);
    assert_eq!(route("POST", "/api/search?id=1"), Route::Missing);
    assert_eq!(route("POST", "/api/list"), Route::Missing);
    assert_eq!(route("GET", "/image.png"), Route::Missing);
    assert_eq!(route("GET", "/api/list/"), Route::Missing);
    assert_eq!(route("GET", "/index.htm"), Route::Missing);
    assert_eq!(route("GET", ""), Route::Missing);
}

#[test]
fn other_methods_are_unsupported_whatever_the_path() {
    for method in ["PUT", "DELETE", "HEAD", "OPTIONS", "get", "post", "GETS", ""] {
        for path in ["/", "/index.html", "/api/echo", "/api/search?id=1", "/x.css", "/none"] {
            assert_eq!(route(method, path), Route::Unsupported);
        }
    }
}

#[test]
fn index_is_served_as_html() {
    for path in ["/", "/index.html"] {
        let step = handle_connection(&get(path));
        assert_eq!(step, asked("static/index.html", Status::Success, "text/html"));
        let pending = match step {
            Ok(Step::Read { then, .. }) => then,
            other => panic!("{:?}", other),
        };
        assert_eq!(
            resume(pending, Some("<h1>Hi</h1>".to_string())),
            sent(Status::Success, "text/html", "<h1>Hi</h1>")
        );
    }
}

#[test]
fn other_methods_get_the_page_for_what_is_not_implemented() {
    for request in ["PUT / HTTP/1.1\r\n\r\n", "DELETE /api/echo HTTP/1.1\r\n\r\nid=1&name=a"] {
        let step = handle_connection(&padded(request));
        assert_eq!(step, asked("static/501.html", Status::NotImplemented, "text/html"));
        let pending = match step {
            Ok(Step::Read { then, .. }) => then,
            other => panic!("{:?}", other),
        };
        assert_eq!(
            resume(pending, Some("no".to_string())),
            sent(Status::NotImplemented, "text/html", "no")
        );
    }
}

#[test]
fn fixed_pages_and_data() {
    assert_eq!(
        handle_connection(&get("/501.html")),
        asked("static/501.html", Status::NotImplemented, "text/html")
    );
    assert_eq!(handle_connection(&get("/api/check")), asked("data/data.txt", Status::Success, "text/plain"));
    assert_eq!(
        handle_connection(&get("/api/list")),
        asked("data/data.json", Status::Success, "application/json")
    );
}

#[test]
fn assets_come_from_the_static_root() {
    assert_eq!(handle_connection(&get("/about.html")), asked("static/about.html", Status::Success, "text/html"));
    assert_eq!(
        handle_connection(&get("/js/app.js")),
        asked("static/js/app.js", Status::Success, "text/javascript")
    );
    assert_eq!(
        handle_connection(&get("/api/list.json")),
        asked("static/api/list.json", Status::Success, "application/json")
    );
    assert_eq!(handle_connection(&get("/main.css")), asked("static/main.css", Status::Success, "text/css"));
}

#[test]
fn unknown_paths_get_the_page_for_what_is_not_found() {
    assert_eq!(handle_connection(&get("/nothing")), asked("static/404.html", Status::NotFound, "text/html"));
    assert_eq!(
        handle_connection(&padded("POST / HTTP/1.1\r\n\r\n")),
        asked("static/404.html", Status::NotFound, "text/html")
    );
}

#[test]
fn search_asks_for_the_store_first() {
    assert_eq!(
        handle_connection(&get("/api/search?id=1&name=Foo")),
        Ok(Step::Read {
            path: "data/data.json".to_string(),
            then: Pending::Store { path: "/api/search?id=1&name=Foo".to_string() },
        })
    );
}

#[test]
fn search_with_an_invalid_query_does_not_ask_for_the_store() {
    for path in [
        "/api/search",
        "/api/search?id",
        "/api/search?id=abc&name=Foo",
        "/api/search?name=Foo",
        "/api/search?id=1&name",
        "/api/search?id=1?name=Foo",
    ] {
        assert_eq!(handle_connection(&get(path)), Err(ServerError::InvalidQuery));
    }
}

#[test]
fn search_runs_once_the_store_is_there() {
    let pending = Pending::Store { path: "/api/search?id=1&name=Foo".to_string() };
    assert_eq!(
        resume(pending, Some("[{\"id\":1,\"name\":\"Foo\"}]".to_string())),
        sent(Status::Success, "application/json", "[{\"id\":1,\"name\":\"Foo\"}]")
    );
}

#[test]
fn search_from_request_to_response() {
    let first = handle_connection(&get("/api/search?id=999&name=Nope"));
    let pending = match first {
        Ok(Step::Read { then, .. }) => then,
        other => panic!("{:?}", other),
    };
    let second = resume(pending, Some("[{\"id\":1,\"name\":\"Foo\"}]".to_string()));
    assert_eq!(second, asked("data/not_found.json", Status::NotFound, "application/json"));
    let pending = match second {
        Ok(Step::Read { then, .. }) => then,
        other => panic!("{:?}", other),
    };
    assert_eq!(
        resume(pending, Some("{\"message\":\"none\"}".to_string())),
        sent(Status::NotFound, "application/json", "{\"message\":\"none\"}")
    );
}

#[test]
fn echo_and_upload_are_answered_at_once() {
    assert_eq!(
        handle_connection(&padded("POST /api/echo HTTP/1.1\r\nHost: x\r\n\r\nid=1&name=Foo")),
        sent(Status::Success, "application/x-www-form-urlencoded", "id=1&name=Foo")
    );
    assert_eq!(
        handle_connection(&padded(
            "POST /api/upload HTTP/1.1\r\nContent-Type: application/json\r\n\r\n{\"a\":1}"
        )),
        sent(Status::Success, "application/json", "{\"a\":1}")
    );
}

#[test]
fn errors_of_the_handlers_end_the_connection() {
    assert_eq!(handle_connection(&[0u8; 1024]), Err(ServerError::MalformedRequest));
    assert_eq!(handle_connection(&padded("GET /")), Err(ServerError::MalformedRequest));
    assert_eq!(handle_connection(&padded("POST /api/echo HTTP/1.1\r\n")), Err(ServerError::NoBody));
    assert_eq!(
        handle_connection(&padded("POST /api/upload HTTP/1.1\r\n\r\n{}")),
        Err(ServerError::MissingContentType)
    );
}

#[test]
fn absent_static_file_falls_back_to_the_page_for_what_is_not_found() {
    assert_eq!(
        resume(body(Status::Success, "text/css"), None),
        asked("static/404.html", Status::NotFound, "text/html")
    );
}

#[test]
fn absent_fixed_file_ends_the_connection() {
    assert_eq!(resume(body(Status::NotFound, "text/html"), None), Err(ServerError::NotFound));
    assert_eq!(resume(body(Status::Forbidden, "text/plain"), None), Err(ServerError::NotFound));
    assert_eq!(resume(body(Status::NotImplemented, "text/html"), None), Err(ServerError::NotFound));
    assert_eq!(
        resume(Pending::Store { path: "/api/search?id=1".to_string() }, None),
        Err(ServerError::NotFound)
    );
}

#[test]
fn contents_become_the_body() {
    assert_eq!(
        resume(body(Status::Forbidden, "application/json"), Some("{}".to_string())),
        sent(Status::Forbidden, "application/json", "{}")
    );
    assert_eq!(
        resume(body(Status::Success, "text/plain"), Some(String::new())),
        sent(Status::Success, "text/plain", "")
    );
}

#[test]
fn steps_are_built_from_their_parts() {
    assert_eq!(
        Ok(read_static_file("static/x.js")),
        asked("static/x.js", Status::Success, "text/javascript")
    );
    assert_eq!(
        Ok(serve_file("data/error.txt", Status::Forbidden, "text/plain")),
        asked("data/error.txt", Status::Forbidden, "text/plain")
    );
    assert_eq!(
        Ok(send_body(Status::Success, "text/css", "a{}".to_string())),
        sent(Status::Success, "text/css", "a{}")
    );
}
