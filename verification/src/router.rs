//! The router and the two functions that drive a connection:
//! `handle_connection`, which looks at the request, and `resume`, which goes
//! on once a backing file has been read.

use crate::error::ServerError;
use crate::handlers::{
    echo_outcome, echo_pattern, form_pattern, handle_echo_request, handle_upload_request,
    upload_outcome,
};
use crate::request::{body_text, content_type_header, parse_request, request_line};
use crate::response::{content_type_of, detect_content_type, Status};
use crate::search::{handle_search_request, parse_search_terms, search_outcome, search_terms};
use crate::step::{
    outcome_view, send, send_body, serve, serve_file, Pending, PendingView, Step, StepView,
};
use crate::text::{chars_of, ends_with, has_prefix, has_suffix, same_text, starts_with};
use crate::trusted::{json_object_text, lossy_text, regex_captures, regex_is_match};
use vstd::prelude::*;
use vstd::utf8::{decode_utf8, valid_utf8};
use vstd::string::StringExecFns;

verus! {

/// Where a request goes.
#[derive(Clone, Copy, Debug, PartialEq, Eq, Structural)]
pub enum Route {
    /// The method is neither `GET` nor `POST`.
    Unsupported,
    /// `GET /` and `GET /index.html`
    Index,
    /// `GET /501.html`
    NotImplementedPage,
    /// `GET /api/check`
    Check,
    /// `GET /api/list`
    List,
    /// `POST /api/echo`
    Echo,
    /// `POST /api/upload`
    Upload,
    /// `GET` of a path that begins with `/api/search`
    Search,
    /// `GET` of a path that ends in `.html`, `.js`, `.json` or `.css`
    Asset,
    /// Anything else.
    Missing,
}

/// `path` ends in one of the extensions that are served from the static
/// root.
pub open spec fn is_asset(path: Seq<char>) -> bool {
    ends_with(path, ".html"@) || ends_with(path, ".js"@) || ends_with(path, ".json"@) || ends_with(
        path,
        ".css"@,
    )
}

/// The route of a request. The method is looked at first; then the rules
/// are tried in this order and the first that applies decides: the exact
/// paths, the prefix of the search, the extensions of the assets.
pub open spec fn route_of(method: Seq<char>, path: Seq<char>) -> Route {
    if method != "GET"@ && method != "POST"@ {
        Route::Unsupported
    } else if method == "GET"@ && (path == "/"@ || path == "/index.html"@) {
        Route::Index
    } else if method == "GET"@ && path == "/501.html"@ {
        Route::NotImplementedPage
    } else if method == "GET"@ && path == "/api/check"@ {
        Route::Check
    } else if method == "GET"@ && path == "/api/list"@ {
        Route::List
    } else if method == "POST"@ && path == "/api/echo"@ {
        Route::Echo
    } else if method == "POST"@ && path == "/api/upload"@ {
        Route::Upload
    } else if method == "GET"@ && starts_with(path, "/api/search"@) {
        Route::Search
    } else if method == "GET"@ && is_asset(path) {
        Route::Asset
    } else {
        Route::Missing
    }
}

/// Chooses the route of a request.
pub fn route(method: &str, path: &str) -> (r: Route)
    ensures
        r == route_of(method@, path@),
{
    let m = chars_of(method);
    let p = chars_of(path);
    let get = same_text(&m, &chars_of("GET"));
    let post = same_text(&m, &chars_of("POST"));
    if !get && !post {
        Route::Unsupported
    } else if get && (same_text(&p, &chars_of("/")) || same_text(&p, &chars_of("/index.html"))) {
        Route::Index
    } else if get && same_text(&p, &chars_of("/501.html")) {
        Route::NotImplementedPage
    } else if get && same_text(&p, &chars_of("/api/check")) {
        Route::Check
    } else if get && same_text(&p, &chars_of("/api/list")) {
        Route::List
    } else if post && same_text(&p, &chars_of("/api/echo")) {
        Route::Echo
    } else if post && same_text(&p, &chars_of("/api/upload")) {
        Route::Upload
    } else if get && has_prefix(&p, &chars_of("/api/search")) {
        Route::Search
    } else if get && (has_suffix(&p, &chars_of(".html")) || has_suffix(&p, &chars_of(".js"))
        || has_suffix(&p, &chars_of(".json")) || has_suffix(&p, &chars_of(".css"))) {
        Route::Asset
    } else {
        Route::Missing
    }
}

/// The step that answers with the file at `path`, typed by its extension.
pub open spec fn static_file(path: Seq<char>) -> StepView {
    serve(path, Status::Success, content_type_of(path))
}

/// Asks for the file at `path` to answer with it, typed by its extension.
pub fn read_static_file(path: &str) -> (step: Step)
    ensures
        step@ == static_file(path@),
{
    serve_file(path, Status::Success, detect_content_type(path))
}

/// The first step for a request that is given as text. A search with an
/// invalid query fails at once; the record store is asked for only where
/// the query is valid.
pub open spec fn first_step(text: Seq<char>) -> Result<StepView, ServerError> {
    match request_line(text) {
        Err(e) => Err(e),
        Ok((method, path, _)) => match route_of(method, path) {
            Route::Unsupported => Ok(
                serve("static/501.html"@, Status::NotImplemented, "text/html"@),
            ),
            Route::Index => Ok(static_file("static/index.html"@)),
            Route::NotImplementedPage => Ok(
                serve("static/501.html"@, Status::NotImplemented, "text/html"@),
            ),
            Route::Check => Ok(static_file("data/data.txt"@)),
            Route::List => Ok(static_file("data/data.json"@)),
            Route::Echo => echo_outcome(text),
            Route::Upload => upload_outcome(text),
            Route::Search => match search_terms(path) {
                Err(e) => Err(e),
                Ok(_) => Ok(
                    StepView::Read { path: "data/data.json"@, then: PendingView::Store { path } },
                ),
            },
            Route::Asset => Ok(static_file("static"@ + path)),
            Route::Missing => Ok(serve("static/404.html"@, Status::NotFound, "text/html"@)),
        },
    }
}

/// Looks at the request in `buffer` and says what to do first: to send a
/// response, or to read a backing file and come back to `resume` with it.
pub fn handle_connection(buffer: &[u8]) -> (r: Result<Step, ServerError>)
    ensures
        outcome_view(r) == first_step(lossy_text(buffer@)),
        valid_utf8(buffer@) ==> outcome_view(r) == first_step(decode_utf8(buffer@)),
{
    let (method, path, _) = match parse_request(buffer) {
        Ok(line) => line,
        Err(e) => {
            return Err(e);
        },
    };
    match route(method.as_str(), path.as_str()) {
        Route::Unsupported => Ok(
            serve_file("static/501.html", Status::NotImplemented, "text/html"),
        ),
        Route::Index => Ok(read_static_file("static/index.html")),
        Route::NotImplementedPage => Ok(
            serve_file("static/501.html", Status::NotImplemented, "text/html"),
        ),
        Route::Check => Ok(read_static_file("data/data.txt")),
        Route::List => Ok(read_static_file("data/data.json")),
        Route::Echo => handle_echo_request(buffer),
        Route::Upload => handle_upload_request(buffer),
        Route::Search => match parse_search_terms(path.as_str()) {
            Err(e) => Err(e),
            Ok(_) => Ok(
                Step::Read {
                    path: String::from_str("data/data.json"),
                    then: Pending::Store { path },
                },
            ),
        },
        Route::Asset => {
            let mut file = String::from_str("static");
            file.append(path.as_str());
            Ok(read_static_file(file.as_str()))
        },
        Route::Missing => Ok(serve_file("static/404.html", Status::NotFound, "text/html")),
    }
}

/// What follows once the contents of the file that was asked for are
/// there, or are known to be absent.
///
/// The contents become the body of the response that was pending. In place
/// of a file that was to be served with status 200 and is absent, the page
/// for what is not found is asked for; any other absent file ends the
/// connection without a response.
pub open spec fn next_step(pending: PendingView, contents: Option<Seq<char>>) -> Result<
    StepView,
    ServerError,
> {
    match pending {
        PendingView::Body { status, content_type } => match contents {
            Some(body) => Ok(send(status, content_type, body)),
            None => if status == Status::Success {
                Ok(serve("static/404.html"@, Status::NotFound, "text/html"@))
            } else {
                Err(ServerError::NotFound)
            },
        },
        PendingView::Store { path } => match contents {
            Some(store) => search_outcome(path, store),
            None => Err(ServerError::NotFound),
        },
    }
}

/// The contents of a file as a mathematical value.
pub open spec fn contents_view(contents: Option<String>) -> Option<Seq<char>> {
    match contents {
        Some(text) => Some(text@),
        None => None,
    }
}

/// Goes on with a connection once the file that was asked for has been
/// read; `contents` is `None` where the file is absent.
pub fn resume(pending: Pending, contents: Option<String>) -> (r: Result<Step, ServerError>)
    ensures
        outcome_view(r) == next_step(pending@, contents_view(contents)),
{
    match pending {
        Pending::Body { status, content_type } => match contents {
            Some(body) => Ok(send_body(status, content_type, body)),
            None => match status {
                Status::Success => Ok(serve_file("static/404.html", Status::NotFound, "text/html")),
                _ => Err(ServerError::NotFound),
            },
        },
        Pending::Store { path } => match contents {
            Some(store) => handle_search_request(path.as_str(), store.as_str()),
            None => Err(ServerError::NotFound),
        },
    }
}

/// The index page is typed as HTML.
pub proof fn lemma_index_page_is_html()
    ensures
        content_type_of("static/index.html"@) == "text/html"@,
{
    reveal_strlit("static/index.html");
    reveal_strlit(".html");
    let path = "static/index.html"@;
    assert(path.subrange(path.len() - 5, path.len() as int) =~= ".html"@);
}

/// `GET /` and `GET /index.html` are answered with status 200 and the
/// content type `text/html`: the index page is asked for, and what it holds
/// is sent as it is.
pub proof fn lemma_index_request_gets_html(text: Seq<char>, page: Seq<char>)
    requires
        request_line(text) is Ok,
        request_line(text)->Ok_0.0 == "GET"@,
        request_line(text)->Ok_0.1 == "/"@ || request_line(text)->Ok_0.1 == "/index.html"@,
    ensures
        first_step(text) == Ok::<StepView, ServerError>(
            serve("static/index.html"@, Status::Success, "text/html"@),
        ),
        next_step(
            PendingView::Body { status: Status::Success, content_type: "text/html"@ },
            Some(page),
        ) == Ok::<StepView, ServerError>(send(Status::Success, "text/html"@, page)),
{
    reveal_strlit("GET");
    reveal_strlit("POST");
    lemma_index_page_is_html();
}

/// A request with a method other than `GET` and `POST` is answered with
/// status 501, whatever its path: the page for what is not implemented is
/// asked for, and what it holds is sent with that status.
pub proof fn lemma_other_methods_are_not_implemented(text: Seq<char>, page: Seq<char>)
    requires
        request_line(text) is Ok,
        request_line(text)->Ok_0.0 != "GET"@,
        request_line(text)->Ok_0.0 != "POST"@,
    ensures
        first_step(text) == Ok::<StepView, ServerError>(
            serve("static/501.html"@, Status::NotImplemented, "text/html"@),
        ),
        next_step(
            PendingView::Body { status: Status::NotImplemented, content_type: "text/html"@ },
            Some(page),
        ) == Ok::<StepView, ServerError>(send(Status::NotImplemented, "text/html"@, page)),
{
}

/// `POST` goes to the echo for the path `/api/echo` and to the upload for
/// the path `/api/upload`.
pub proof fn lemma_post_routes()
    ensures
        route_of("POST"@, "/api/echo"@) == Route::Echo,
        route_of("POST"@, "/api/upload"@) == Route::Upload,
{
    reveal_strlit("GET");
    reveal_strlit("POST");
    reveal_strlit("/api/echo");
    reveal_strlit("/api/upload");
    assert("GET"@.len() == 3 && "POST"@.len() == 4);
    assert("/api/echo"@.len() == 9 && "/api/upload"@.len() == 11);
}

/// A `POST /api/echo` whose body holds the echo pattern is answered with
/// status 200 and that body, character for character.
pub proof fn lemma_echo_returns_matching_body(text: Seq<char>, body: Seq<char>)
    requires
        request_line(text) is Ok,
        request_line(text)->Ok_0.0 == "POST"@,
        request_line(text)->Ok_0.1 == "/api/echo"@,
        body_text(text) == Some(body),
        regex_is_match(echo_pattern(), body) == Some(true),
    ensures
        first_step(text) == Ok::<StepView, ServerError>(
            send(Status::Success, "application/x-www-form-urlencoded"@, body),
        ),
{
    lemma_post_routes();
}

/// A `POST /api/echo` whose body does not hold the echo pattern is answered
/// with status 403: the error text is asked for, and what it holds is sent
/// with that status.
pub proof fn lemma_echo_rejects_other_bodies(text: Seq<char>, body: Seq<char>, message: Seq<char>)
    requires
        request_line(text) is Ok,
        request_line(text)->Ok_0.0 == "POST"@,
        request_line(text)->Ok_0.1 == "/api/echo"@,
        body_text(text) == Some(body),
        regex_is_match(echo_pattern(), body) == Some(false),
    ensures
        first_step(text) == Ok::<StepView, ServerError>(
            serve("data/error.txt"@, Status::Forbidden, "text/plain"@),
        ),
        next_step(
            PendingView::Body { status: Status::Forbidden, content_type: "text/plain"@ },
            Some(message),
        ) == Ok::<StepView, ServerError>(send(Status::Forbidden, "text/plain"@, message)),
{
    lemma_post_routes();
}

/// A `POST /api/upload` with the content type `application/json` is
/// answered with status 200 and the body of the request, unchanged.
pub proof fn lemma_upload_returns_json_body(text: Seq<char>, body: Seq<char>)
    requires
        request_line(text) is Ok,
        request_line(text)->Ok_0.0 == "POST"@,
        request_line(text)->Ok_0.1 == "/api/upload"@,
        content_type_header(text) == Ok::<Seq<char>, ServerError>("application/json"@),
        body_text(text) == Some(body),
    ensures
        first_step(text) == Ok::<StepView, ServerError>(
            send(Status::Success, "application/json"@, body),
        ),
{
    lemma_post_routes();
}

/// A `POST /api/upload` of form data in which the form pattern finds an id
/// and a name is answered with status 200 and the JSON object that has
/// these two as its members `id` and `name`.
pub proof fn lemma_upload_returns_form_fields(
    text: Seq<char>,
    body: Seq<char>,
    groups: Seq<Option<Seq<char>>>,
    id: Seq<char>,
    name: Seq<char>,
)
    requires
        request_line(text) is Ok,
        request_line(text)->Ok_0.0 == "POST"@,
        request_line(text)->Ok_0.1 == "/api/upload"@,
        content_type_header(text) == Ok::<Seq<char>, ServerError>(
            "application/x-www-form-urlencoded"@,
        ),
        body_text(text) == Some(body),
        regex_captures(form_pattern(), body) == Some(Some(groups)),
        groups.len() >= 3,
        groups[1] == Some(id),
        groups[2] == Some(name),
    ensures
        first_step(text) == Ok::<StepView, ServerError>(
            send(Status::Success, "application/json"@, json_object_text("id"@, id, "name"@, name)),
        ),
{
    lemma_post_routes();
    reveal_strlit("application/json");
    reveal_strlit("application/x-www-form-urlencoded");
    assert("application/x-www-form-urlencoded"@.len() == 33);
}

/// A search whose query is invalid fails before any file is asked for.
pub proof fn lemma_invalid_search_reads_nothing(text: Seq<char>)
    requires
        request_line(text) is Ok,
        route_of(request_line(text)->Ok_0.0, request_line(text)->Ok_0.1) == Route::Search,
        search_terms(request_line(text)->Ok_0.1) is Err,
    ensures
        first_step(text) == Err::<StepView, ServerError>(
            search_terms(request_line(text)->Ok_0.1)->Err_0,
        ),
{
}

/// How many more files may have to be read before a pending answer is
/// sent.
pub open spec fn reads_left(pending: PendingView) -> nat {
    match pending {
        PendingView::Body { status, content_type } => if status == Status::Success {
            1
        } else {
            0
        },
        PendingView::Store { path } => 1,
    }
}

/// A connection comes to its end: each time `resume` asks for another
/// file, fewer reads are left than before, so that no request takes more
/// than three.
pub proof fn lemma_reads_run_out(pending: PendingView, contents: Option<Seq<char>>)
    ensures
        match next_step(pending, contents) {
            Ok(StepView::Read { path, then }) => reads_left(then) < reads_left(pending),
            _ => true,
        },
        reads_left(pending) <= 1,
{
}

} // verus!
