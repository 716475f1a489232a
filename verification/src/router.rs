//! Routing of requests by path.
//!
//! Only the path of a request decides which handler answers it; the method
//! is never looked at. The pages that the handlers serve are supplied by the
//! caller and handed out unchanged.

use crate::query::query_of;
use crate::query::Query;
use crate::text::str_eq;
use crate::uri::RequestUri;
use crate::uri::RequestUriView;
use vstd::prelude::*;

verus! {

/// Path of the new-tab page.
pub const NEW_TAB_PATH: &'static str = "/";

/// Path of the search endpoint.
pub const SEARCH_PATH: &'static str = "/search";

/// Path of the client script.
pub const SCRIPT_PATH: &'static str = "/js";

/// Content type of the two HTML pages.
pub const CONTENT_TYPE_HTML: &'static str = "text/html; charset=utf-8";

/// Content type of the client script.
pub const CONTENT_TYPE_JAVASCRIPT: &'static str = "text/javascript; charset=utf-8";

/// Status of a response that carries a page.
pub const STATUS_OK: u16 = 200;

/// Status of the answer to a search without search text.
pub const STATUS_BAD_REQUEST: u16 = 400;

/// Status of the answer to a path that no handler serves.
pub const STATUS_NOT_FOUND: u16 = 404;

/// The static content the handlers serve, supplied once at startup.
#[derive(Clone, Debug, PartialEq, Eq)]
pub struct Pages {
    /// The new-tab page (HTML).
    pub new_tab: String,
    /// The search-result page (HTML).
    pub search_result: String,
    /// The client script (JavaScript).
    pub script: String,
}

/// The pages as character sequences.
pub struct PagesView {
    pub new_tab: Seq<char>,
    pub search_result: Seq<char>,
    pub script: Seq<char>,
}

impl View for Pages {
    type V = PagesView;

    open spec fn view(&self) -> PagesView {
        PagesView {
            new_tab: self.new_tab@,
            search_result: self.search_result@,
            script: self.script@,
        }
    }
}

/// What goes back to the client: a status code, the `Content-Type` header
/// if one is set, and the body.
#[derive(Clone, Debug, PartialEq, Eq)]
pub struct Response {
    pub status: u16,
    pub content_type: Option<String>,
    pub body: String,
}

/// A response as numbers and character sequences.
pub struct ResponseView {
    pub status: u16,
    pub content_type: Option<Seq<char>>,
    pub body: Seq<char>,
}

impl View for Response {
    type V = ResponseView;

    open spec fn view(&self) -> ResponseView {
        ResponseView {
            status: self.status,
            content_type: match self.content_type {
                Some(value) => Some(value@),
                None => None,
            },
            body: self.body@,
        }
    }
}

/// Whether a character may stand in a header value: a tab, or anything from
/// the space upwards except the delete character.
pub open spec fn header_char(c: char) -> bool {
    c == '\t' || (c >= ' ' && c != '\x7f')
}

impl ResponseView {
    /// A response that can be put on the wire: the status is a three-digit
    /// code and the content type, if set, is made of header characters.
    pub open spec fn wf(self) -> bool {
        &&& 100 <= self.status <= 999
        &&& self.content_type matches Some(value) ==> forall|i: int|
            0 <= i < value.len() ==> header_char(#[trigger] value[i])
    }
}

/// The response that carries a page: status 200, the given content type,
/// the page as the body.
pub open spec fn page_view(content_type: Seq<char>, body: Seq<char>) -> ResponseView {
    ResponseView { status: STATUS_OK, content_type: Some(content_type), body }
}

/// The response that carries nothing but a status: no content type, an
/// empty body.
pub open spec fn empty_view(status: u16) -> ResponseView {
    ResponseView { status, content_type: None, body: Seq::empty() }
}

/// The handler a path leads to.
#[derive(Clone, Copy, Debug, PartialEq, Eq)]
pub enum Route {
    NewTab,
    Search,
    Script,
    NotFound,
}

/// The handler that `path` leads to. Paths are compared whole and
/// case-sensitively; anything but the three known paths is not found.
pub open spec fn route_of(path: Seq<char>) -> Route {
    if path == NEW_TAB_PATH@ {
        Route::NewTab
    } else if path == SEARCH_PATH@ {
        Route::Search
    } else if path == SCRIPT_PATH@ {
        Route::Script
    } else {
        Route::NotFound
    }
}

/// The answer of the search endpoint, given whether the request carried
/// search text. The text itself does not shape the answer.
pub open spec fn search_view(found: bool, pages: PagesView) -> ResponseView {
    if found {
        page_view(CONTENT_TYPE_HTML@, pages.search_result)
    } else {
        empty_view(STATUS_BAD_REQUEST)
    }
}

/// The response to a request for `uri`.
pub open spec fn response_to(uri: RequestUriView, pages: PagesView) -> ResponseView {
    match route_of(uri.path) {
        Route::NewTab => page_view(CONTENT_TYPE_HTML@, pages.new_tab),
        Route::Search => search_view(query_of(uri) is Some, pages),
        Route::Script => page_view(CONTENT_TYPE_JAVASCRIPT@, pages.script),
        Route::NotFound => empty_view(STATUS_NOT_FOUND),
    }
}

/// The three paths are pairwise different, so each leads to its own handler.
pub proof fn lemma_paths_distinct()
    ensures
        route_of(NEW_TAB_PATH@) == Route::NewTab,
        route_of(SEARCH_PATH@) == Route::Search,
        route_of(SCRIPT_PATH@) == Route::Script,
{
    reveal_strlit("/");
    reveal_strlit("/search");
    reveal_strlit("/js");
    assert(NEW_TAB_PATH@.len() == 1);
    assert(SEARCH_PATH@.len() == 7);
    assert(SCRIPT_PATH@.len() == 3);
}

/// Both content types are made of header characters.
pub proof fn lemma_content_types_are_header_values()
    ensures
        forall|i: int|
            0 <= i < CONTENT_TYPE_HTML@.len() ==> header_char(#[trigger] CONTENT_TYPE_HTML@[i]),
        forall|i: int|
            0 <= i < CONTENT_TYPE_JAVASCRIPT@.len() ==> header_char(
                #[trigger] CONTENT_TYPE_JAVASCRIPT@[i],
            ),
{
    reveal_strlit("text/html; charset=utf-8");
    reveal_strlit("text/javascript; charset=utf-8");
}

impl Route {
    /// Finds the handler for a path.
    pub fn of(path: &str) -> (route: Route)
        ensures
            route == route_of(path@),
    {
        if str_eq(path, NEW_TAB_PATH) {
            Route::NewTab
        } else if str_eq(path, SEARCH_PATH) {
            Route::Search
        } else if str_eq(path, SCRIPT_PATH) {
            Route::Script
        } else {
            Route::NotFound
        }
    }
}

impl Response {
    /// A 200 response with the given content type and body.
    pub fn page(content_type: &str, body: &str) -> (response: Response)
        ensures
            response@ == page_view(content_type@, body@),
    {
        Response {
            status: STATUS_OK,
            content_type: Some(content_type.to_owned()),
            body: body.to_owned(),
        }
    }

    /// A response with the given status, no content type and an empty body.
    pub fn empty(status: u16) -> (response: Response)
        ensures
            response@ == empty_view(status),
    {
        Response { status, content_type: None, body: String::new() }
    }
}

/// Serves the new-tab page.
pub fn new_tab(pages: &Pages) -> (response: Response)
    ensures
        response@ == page_view(CONTENT_TYPE_HTML@, pages.new_tab@),
        response@.wf(),
{
    proof {
        lemma_content_types_are_header_values();
    }
    Response::page(CONTENT_TYPE_HTML, pages.new_tab.as_str())
}

/// Answers a search once the request's search text has been looked for:
/// the search-result page if there was any, 400 with an empty body if
/// there was none. The page is the same whatever the text.
pub fn search_result(found: Option<Query>, pages: &Pages) -> (response: Response)
    ensures
        response@ == search_view(found is Some, pages@),
        found is Some ==> response@ == page_view(CONTENT_TYPE_HTML@, pages.search_result@),
        found is None ==> response@ == empty_view(STATUS_BAD_REQUEST),
        response@.wf(),
{
    proof {
        lemma_content_types_are_header_values();
    }
    match found {
        Some(_) => Response::page(CONTENT_TYPE_HTML, pages.search_result.as_str()),
        None => Response::empty(STATUS_BAD_REQUEST),
    }
}

/// Serves the search endpoint: looks for the search text in the URI's query
/// string and answers accordingly.
pub fn search(uri: &RequestUri, pages: &Pages) -> (response: Response)
    ensures
        response@ == search_view(query_of(uri@) is Some, pages@),
        query_of(uri@) is Some ==> response@ == page_view(
            CONTENT_TYPE_HTML@,
            pages.search_result@,
        ),
        query_of(uri@) is None ==> response@ == empty_view(STATUS_BAD_REQUEST),
        uri.query is None ==> response@ == empty_view(STATUS_BAD_REQUEST),
        response@.wf(),
{
    search_result(Query::parse(uri), pages)
}

/// Answers one request.
///
/// `/` gets the new-tab page, `/js` the client script, `/search` the
/// search-result page if the query string names a `q` and 400 if it does
/// not; every other path gets 404. Error responses set no content type and
/// have an empty body.
pub fn serve(uri: &RequestUri, pages: &Pages) -> (response: Response)
    ensures
        response@ == response_to(uri@, pages@),
        response@.wf(),
        uri.path@ == NEW_TAB_PATH@ ==> response@ == page_view(
            CONTENT_TYPE_HTML@,
            pages.new_tab@,
        ),
        uri.path@ == SCRIPT_PATH@ ==> response@ == page_view(
            CONTENT_TYPE_JAVASCRIPT@,
            pages.script@,
        ),
        uri.path@ == SEARCH_PATH@ && query_of(uri@) is Some ==> response@ == page_view(
            CONTENT_TYPE_HTML@,
            pages.search_result@,
        ),
        uri.path@ == SEARCH_PATH@ && query_of(uri@) is None ==> response@ == empty_view(
            STATUS_BAD_REQUEST,
        ),
        uri.path@ == SEARCH_PATH@ && uri.query is None ==> response@ == empty_view(
            STATUS_BAD_REQUEST,
        ),
        uri.path@ != NEW_TAB_PATH@ && uri.path@ != SEARCH_PATH@ && uri.path@ != SCRIPT_PATH@
            ==> response@ == empty_view(STATUS_NOT_FOUND),
{
    proof {
        lemma_paths_distinct();
        lemma_content_types_are_header_values();
    }
    match Route::of(uri.path.as_str()) {
        Route::NewTab => new_tab(pages),
        Route::Search => search(uri, pages),
        Route::Script => Response::page(CONTENT_TYPE_JAVASCRIPT, pages.script.as_str()),
        Route::NotFound => Response::empty(STATUS_NOT_FOUND),
    }
}

} // verus!
