//! The status handler: a poll with a session identifier, answered with the
//! token at most once.

use vstd::prelude::*;
use vstd::string::*;
use crate::http::{text_reply, Response, ResponseView};
use crate::json::{encode_string, json_string_literal};
use crate::query::{required_value, Query};
use crate::session::{live_token, SessionStore, Sessions};

verus! {

/// What the first step of a status poll asks for.
pub enum StatusStep {
    /// Answer at once; the store is not consulted.
    Reject(Response),
    /// Read this session identifier from the store, then finish with what was found.
    Lookup(String),
}

/// What a read of the store has given.
pub enum StoreReading {
    /// A token that is stored and has not expired.
    Found(String),
    /// Nothing: never stored, expired, or already handed out.
    Absent,
    /// The store could not be reached.
    Unavailable,
}

/// The mathematical content of a [`StoreReading`].
pub enum StoreReadingView {
    Found(Seq<char>),
    Absent,
    Unavailable,
}

impl View for StoreReading {
    type V = StoreReadingView;

    open spec fn view(&self) -> StoreReadingView {
        match self {
            StoreReading::Found(token) => StoreReadingView::Found(token@),
            StoreReading::Absent => StoreReadingView::Absent,
            StoreReading::Unavailable => StoreReadingView::Unavailable,
        }
    }
}

/// How a status poll ends: the answer, and whether the entry that was read
/// must now be removed from the store.
pub struct StatusResult {
    pub response: Response,
    pub consume: bool,
}

/// The mathematical content of a [`StatusResult`].
pub struct StatusResultView {
    pub response: ResponseView,
    pub consume: bool,
}

impl View for StatusResult {
    type V = StatusResultView;

    open spec fn view(&self) -> StatusResultView {
        StatusResultView { response: self.response@, consume: self.consume }
    }
}

/// The answer to a poll without a usable `session_id`.
pub open spec fn missing_session_reply() -> ResponseView {
    text_reply(400, "application/json"@, "Invalid session ID"@)
}

/// The answer while no token can be read under the identifier.
pub open spec fn pending_reply() -> ResponseView {
    text_reply(200, "application/json"@, "{\"status\":\"pending\",\"token\":null}"@)
}

/// The JSON text that hands out `token`.
pub open spec fn authorized_body(token: Seq<char>) -> Seq<char> {
    "{\"status\":\"authorized\",\"token\":"@ + json_string_literal(token) + "}"@
}

/// The answer that hands out `token`.
pub open spec fn authorized_reply(token: Seq<char>) -> ResponseView {
    text_reply(200, "application/json"@, authorized_body(token))
}

/// The answer where the store could not be reached: an error, never "pending".
pub open spec fn unavailable_reply() -> ResponseView {
    text_reply(500, "application/json"@, "Session store unavailable"@)
}

/// The answer to a poll, by what can be read under the identifier.
pub open spec fn token_reply(token: Option<Seq<char>>) -> ResponseView {
    match token {
        Some(token) => authorized_reply(token),
        None => pending_reply(),
    }
}

/// How a poll ends, by what the store has given. Only a token that was found
/// is consumed.
pub open spec fn status_result(reading: StoreReadingView) -> StatusResultView {
    match reading {
        StoreReadingView::Found(token) => StatusResultView {
            response: authorized_reply(token),
            consume: true,
        },
        StoreReadingView::Absent => StatusResultView { response: pending_reply(), consume: false },
        StoreReadingView::Unavailable => StatusResultView {
            response: unavailable_reply(),
            consume: false,
        },
    }
}

/// The answer to a poll for `id` at `now` against a store.
pub open spec fn poll_reply(sessions: Sessions, id: Seq<char>, now: nat) -> ResponseView {
    token_reply(live_token(sessions, id, now))
}

/// The store after a poll for `id`: nothing is left under the identifier.
pub open spec fn sessions_after_poll(sessions: Sessions, id: Seq<char>) -> Sessions {
    sessions.remove(id)
}

/// First step of a status poll. A request without a `session_id`, or with an
/// empty one, is rejected with 400; otherwise the identifier is to be read.
pub fn handle_check_status(query: &Query) -> (step: StatusStep)
    ensures
        match required_value(query@, "session_id"@) {
            None => step matches StatusStep::Reject(response) && response@
                == missing_session_reply(),
            Some(id) => step matches StatusStep::Lookup(session_id) && session_id@ == id,
        },
{
    match query.required("session_id") {
        Some(session_id) => StatusStep::Lookup(session_id),
        None => StatusStep::Reject(
            Response::text(400, "application/json", "Invalid session ID"),
        ),
    }
}

/// The answer that hands out `token`.
pub fn authorized(token: &str) -> (response: Response)
    ensures
        response@ == authorized_reply(token@),
{
    let mut body: String = "{\"status\":\"authorized\",\"token\":".to_owned();
    match encode_string(token) {
        Ok(literal) => {
            body.append(literal.as_str());
        },
        // Encoding a string has no failing path.
        Err(_) => {},
    }
    body.append("}");
    Response::text(200, "application/json", body.as_str())
}

/// The answer while no token can be read.
pub fn pending() -> (response: Response)
    ensures
        response@ == pending_reply(),
{
    Response::text(200, "application/json", "{\"status\":\"pending\",\"token\":null}")
}

/// Second step of a status poll, given what the store has read.
pub fn finish_check_status(reading: &StoreReading) -> (result: StatusResult)
    ensures
        result@ == status_result(reading@),
{
    match reading {
        StoreReading::Found(token) => StatusResult {
            response: authorized(token.as_str()),
            consume: true,
        },
        StoreReading::Absent => StatusResult { response: pending(), consume: false },
        StoreReading::Unavailable => StatusResult {
            response: Response::text(500, "application/json", "Session store unavailable"),
            consume: false,
        },
    }
}

/// A whole status poll against a store at `now`: the token is read and
/// removed in one step, so a second poll for the same identifier finds nothing.
pub fn check_status(store: &mut SessionStore, query: &Query, now: u64) -> (response: Response)
    ensures
        match required_value(query@, "session_id"@) {
            None => response@ == missing_session_reply() && final(store)@ == old(store)@,
            Some(id) => response@ == poll_reply(old(store)@, id, now as nat) && final(store)@
                == sessions_after_poll(old(store)@, id),
        },
{
    match handle_check_status(query) {
        StatusStep::Reject(response) => response,
        StatusStep::Lookup(session_id) => {
            let reading = match store.take(session_id.as_str(), now) {
                Some(token) => StoreReading::Found(token),
                None => StoreReading::Absent,
            };
            finish_check_status(&reading).response
        },
    }
}

} // verus!
