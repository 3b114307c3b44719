//! Where an HTTP request goes: to the exploration page, to the query and
//! mutation layer, or nowhere.
//!
//! The decision is made here, from the request's method and path alone. The
//! server around the library reads those from the request, sends the reply
//! that is decided here, and runs the operations for a request that goes to
//! the query and mutation layer.

use vstd::prelude::*;

verus! {

/// The method of a request, as far as routing tells methods apart.
#[derive(Clone, Copy, Debug, PartialEq, Eq, Structural)]
pub enum Method {
    Get,
    Post,
    /// Any method but GET and POST.
    Other,
}

/// Where a request goes.
#[derive(Clone, Copy, Debug, PartialEq, Eq, Structural)]
pub enum Route {
    /// To the page for exploring the interface.
    Explorer,
    /// To the query and mutation layer.
    Api,
    /// Nowhere: no such resource.
    NotFound,
}

/// A reply that needs no operation to be run.
#[derive(Debug, PartialEq, Eq)]
pub struct Reply {
    /// The HTTP status code.
    pub status: u16,
    /// Whether the body is an HTML page.
    pub html: bool,
    pub body: String,
}

/// The path of the exploration page.
pub open spec fn explorer_path() -> Seq<char> {
    "/"@
}

/// The path under which queries and mutations are taken.
pub open spec fn api_path() -> Seq<char> {
    "/graphql"@
}

/// The two paths, character by character; they differ.
pub proof fn lemma_paths()
    ensures
        explorer_path() =~= seq!['/'],
        api_path() =~= seq!['/', 'g', 'r', 'a', 'p', 'h', 'q', 'l'],
        explorer_path() != api_path(),
{
    reveal_strlit("/");
    reveal_strlit("/graphql");
    assert(explorer_path().len() == 1);
    assert(api_path().len() == 8);
}

/// Where a request with this method and path goes: GET on the root path to
/// the exploration page, GET and POST on the interface's path to the query
/// and mutation layer, everything else nowhere.
pub open spec fn route_of(method: Method, path: Seq<char>) -> Route {
    if method == Method::Get && path == explorer_path() {
        Route::Explorer
    } else if (method == Method::Get || method == Method::Post) && path == api_path() {
        Route::Api
    } else {
        Route::NotFound
    }
}

/// The routing table, row by row: the root path is served to GET alone, the
/// interface's path to GET and POST alone, and no other method or path is
/// served at all.
pub proof fn law_routing_table(method: Method, path: Seq<char>)
    ensures
        route_of(Method::Get, explorer_path()) == Route::Explorer,
        route_of(Method::Get, api_path()) == Route::Api,
        route_of(Method::Post, api_path()) == Route::Api,
        route_of(Method::Post, explorer_path()) == Route::NotFound,
        route_of(Method::Other, path) == Route::NotFound,
        path != explorer_path() && path != api_path() ==> route_of(method, path)
            == Route::NotFound,
{
    lemma_paths();
}

/// The HTML source of the GraphiQL page that `juniper` generates for a
/// client that sends its requests to `endpoint`, and its subscriptions to
/// `subscriptions` where there is one.
pub uninterp spec fn graphiql_markup(endpoint: Seq<char>, subscriptions: Option<Seq<char>>) -> Seq<
    char,
>;

/// The text of an optional path.
pub open spec fn optional_text(text: Option<&str>) -> Option<Seq<char>> {
    match text {
        Some(t) => Some(t@),
        None => None,
    }
}

/// Calls `juniper::http::graphiql::graphiql_source`, which fills the two
/// addresses into a fixed page template. Not proved: that the page is a
/// function of the two addresses alone, which is all that is claimed.
#[verifier::external_body]
fn graphiql_source(endpoint: &str, subscriptions: Option<&str>) -> (page: String)
    ensures
        page@ == graphiql_markup(endpoint@, optional_text(subscriptions)),
{
    juniper::http::graphiql::graphiql_source(endpoint, subscriptions)
}

/// Whether two texts are the same.
fn same_text(a: &str, b: &str) -> (same: bool)
    ensures
        same == (a@ == b@),
{
    a.to_owned() == b.to_owned()
}

/// Decides where a request goes.
pub fn route(method: Method, path: &str) -> (r: Route)
    ensures
        r == route_of(method, path@),
{
    match method {
        Method::Get => {
            if same_text(path, "/") {
                Route::Explorer
            } else if same_text(path, "/graphql") {
                Route::Api
            } else {
                Route::NotFound
            }
        },
        Method::Post => {
            if same_text(path, "/graphql") {
                Route::Api
            } else {
                Route::NotFound
            }
        },
        Method::Other => Route::NotFound,
    }
}

/// The exploration page: the GraphiQL page of a client that sends its
/// requests to the interface's path, and has no subscriptions.
pub fn explorer_page() -> (page: String)
    ensures
        page@ == graphiql_markup(api_path(), None),
{
    graphiql_source("/graphql", None)
}

/// The reply that serves `page` as the exploration page: status 200, HTML.
pub fn explorer_reply(page: String) -> (reply: Reply)
    ensures
        reply.status == 200,
        reply.html,
        reply.body@ == page@,
{
    Reply { status: 200, html: true, body: page }
}

/// The reply to a request that goes nowhere: status 404, nothing in the
/// body.
pub fn not_found_reply() -> (reply: Reply)
    ensures
        reply.status == 404,
        !reply.html,
        reply.body@ == Seq::<char>::empty(),
{
    Reply { status: 404, html: false, body: String::new() }
}

/// What a reply to a request on `route` is to hold.
pub open spec fn is_reply_for(route: Route, reply: Option<Reply>) -> bool {
    match route {
        Route::Explorer => reply matches Some(r) && r.status == 200 && r.html && r.body@
            == graphiql_markup(api_path(), None),
        Route::Api => reply is None,
        Route::NotFound => reply matches Some(r) && r.status == 404 && !r.html && r.body@
            == Seq::<char>::empty(),
    }
}

/// The reply to a request on `route`, where it needs no operation to be
/// run: the exploration page, or the reply to a request that goes nowhere.
/// A request to the query and mutation layer gets none here.
pub fn respond(route: Route) -> (reply: Option<Reply>)
    ensures
        is_reply_for(route, reply),
{
    match route {
        Route::Explorer => Some(explorer_reply(explorer_page())),
        Route::Api => None,
        Route::NotFound => Some(not_found_reply()),
    }
}

} // verus!
