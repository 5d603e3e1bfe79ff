//! Dispatch of a request by its path.

use vstd::prelude::*;
use vstd::string::*;
use crate::callback::{handle_auth_callback, missing_code_reply, CallbackStep};
use crate::exchange::{exchange_request, Config, ExchangeRequest};
use crate::http::{reply, text_reply, Response, ResponseView};
use crate::query::{required_value, Query};
use crate::status::{handle_check_status, missing_session_reply, StatusStep};

verus! {

/// A static file that the host serves.
#[derive(Clone, Copy, Debug, PartialEq, Eq, Structural)]
pub enum Asset {
    /// The single-page client.
    Index,
    /// The site icon.
    Favicon,
}

/// Where a request path leads.
#[derive(Clone, Copy, Debug, PartialEq, Eq, Structural)]
pub enum Route {
    AuthCallback,
    AuthStatus,
    Static(Asset),
    NotFound,
}

/// The route of a path.
pub open spec fn route_of(subpath: Seq<char>) -> Route {
    if subpath == "/auth/callback"@ {
        Route::AuthCallback
    } else if subpath == "/auth/status"@ {
        Route::AuthStatus
    } else if subpath == "/index.html"@ || subpath == "/index"@ {
        Route::Static(Asset::Index)
    } else if subpath == "/favicon.ico"@ {
        Route::Static(Asset::Favicon)
    } else {
        Route::NotFound
    }
}

/// The content type under which an asset is served.
pub open spec fn asset_content_type(asset: Asset) -> Seq<char> {
    match asset {
        Asset::Index => "text/html"@,
        Asset::Favicon => "image/x-icon"@,
    }
}

/// The answer that serves an asset with the given content.
pub open spec fn asset_reply(asset: Asset, content: Seq<u8>) -> ResponseView {
    reply(200, "content-type"@, asset_content_type(asset), content)
}

/// The answer to a path that leads nowhere.
pub open spec fn not_found_reply() -> ResponseView {
    text_reply(404, "text/plain"@, "Not Found"@)
}

/// What the host is to do next for a request.
pub enum Action {
    /// Send this answer.
    Respond(Response),
    /// Send this request to the provider, then finish the callback with its outcome.
    Exchange(ExchangeRequest),
    /// Read this session identifier from the store, then finish the poll with what was found.
    Lookup(String),
    /// Serve this static file.
    Serve(Asset),
}

/// What a request asks of the host, by its path and query.
pub open spec fn action_matches(
    action: Action,
    subpath: Seq<char>,
    query: Seq<(Seq<char>, Seq<char>)>,
    config: Config,
) -> bool {
    match route_of(subpath) {
        Route::AuthCallback => match required_value(query, "code"@) {
            None => action matches Action::Respond(response) && response@ == missing_code_reply(),
            Some(code) => action matches Action::Exchange(request) && request@
                == exchange_request(config, code),
        },
        Route::AuthStatus => match required_value(query, "session_id"@) {
            None => action matches Action::Respond(response) && response@
                == missing_session_reply(),
            Some(id) => action matches Action::Lookup(session_id) && session_id@ == id,
        },
        Route::Static(asset) => action matches Action::Serve(served) && served == asset,
        Route::NotFound => action matches Action::Respond(response) && response@
            == not_found_reply(),
    }
}

fn same_text(left: &str, right: &str) -> (same: bool)
    ensures
        same == (left@ == right@),
{
    left.to_owned() == right.to_owned()
}

/// Finds the route of a path.
pub fn route(subpath: &str) -> (found: Route)
    ensures
        found == route_of(subpath@),
{
    if same_text(subpath, "/auth/callback") {
        Route::AuthCallback
    } else if same_text(subpath, "/auth/status") {
        Route::AuthStatus
    } else if same_text(subpath, "/index.html") || same_text(subpath, "/index") {
        Route::Static(Asset::Index)
    } else if same_text(subpath, "/favicon.ico") {
        Route::Static(Asset::Favicon)
    } else {
        Route::NotFound
    }
}

/// The answer to a path that leads nowhere.
pub fn not_found() -> (response: Response)
    ensures
        response@ == not_found_reply(),
{
    Response::text(404, "text/plain", "Not Found")
}

/// The answer that serves an asset with the given content.
pub fn serve_asset(asset: Asset, content: Vec<u8>) -> (response: Response)
    ensures
        response@ == asset_reply(asset, content@),
{
    let content_type = match asset {
        Asset::Index => "text/html",
        Asset::Favicon => "image/x-icon",
    };
    Response::with_header(200, "content-type", content_type.to_owned(), content)
}

/// Entry point for a request: dispatches on the path and runs the first
/// step of the handler it leads to.
pub fn handler(subpath: &str, query: &Query, config: &Config) -> (action: Action)
    ensures
        action_matches(action, subpath@, query@, *config),
{
    match route(subpath) {
        Route::AuthCallback => match handle_auth_callback(query, config) {
            CallbackStep::Reject(response) => Action::Respond(response),
            CallbackStep::Exchange(request) => Action::Exchange(request),
        },
        Route::AuthStatus => match handle_check_status(query) {
            StatusStep::Reject(response) => Action::Respond(response),
            StatusStep::Lookup(session_id) => Action::Lookup(session_id),
        },
        Route::Static(asset) => Action::Serve(asset),
        Route::NotFound => Action::Respond(not_found()),
    }
}

} // verus!
