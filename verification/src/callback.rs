//! The callback handler: from the provider's redirect to a stored session.
//!
//! The handler runs in two steps around one outbound request. The first step
//! reads the authorization code and says what to send; the second reads what
//! came back and says what to store and how to answer the browser.

use vstd::prelude::*;
use vstd::string::*;
use crate::exchange::{
    build_exchange_request, exchange_request, exchanged_token, read_exchange, Config,
    ExchangeError, ExchangeOutcome, ExchangeRequest,
};
use crate::http::{redirect_reply, text_reply, Response, ResponseView};
use crate::ident::{fresh_session_id, is_session_id};
use crate::query::{required_value, Query};
use crate::session::{new_record, SessionStore, Sessions, SESSION_TTL_SECONDS};

verus! {

/// What the first step of the callback asks for.
pub enum CallbackStep {
    /// Answer at once; nothing is sent to the provider.
    Reject(Response),
    /// Send this request, then finish with its outcome.
    Exchange(ExchangeRequest),
}

/// A session to store: the token under a fresh identifier, for a limited time.
pub struct SessionGrant {
    pub session_id: String,
    pub token: String,
    pub ttl_seconds: u64,
}

/// The mathematical content of a [`SessionGrant`].
pub struct SessionGrantView {
    pub session_id: Seq<char>,
    pub token: Seq<char>,
    pub ttl_seconds: nat,
}

impl View for SessionGrant {
    type V = SessionGrantView;

    open spec fn view(&self) -> SessionGrantView {
        SessionGrantView {
            session_id: self.session_id@,
            token: self.token@,
            ttl_seconds: self.ttl_seconds as nat,
        }
    }
}

/// How the callback ends: the answer to the browser, and the session to
/// store where the exchange has yielded a token.
pub struct CallbackResult {
    pub response: Response,
    pub grant: Option<SessionGrant>,
}

/// The mathematical content of a [`CallbackResult`].
pub struct CallbackResultView {
    pub response: ResponseView,
    pub grant: Option<SessionGrantView>,
}

impl View for CallbackResult {
    type V = CallbackResultView;

    open spec fn view(&self) -> CallbackResultView {
        CallbackResultView {
            response: self.response@,
            grant: match self.grant {
                Some(grant) => Some(grant@),
                None => None,
            },
        }
    }
}

/// The answer to a callback without a usable `code`.
pub open spec fn missing_code_reply() -> ResponseView {
    text_reply(400, "text/plain"@, "Invalid code"@)
}

/// The answer to a callback whose exchange has yielded no token.
pub open spec fn exchange_failure_reply(error: ExchangeError) -> ResponseView {
    match error {
        ExchangeError::Transport => text_reply(500, "text/plain"@, "Failed to exchange token"@),
        ExchangeError::Contract => text_reply(
            500,
            "text/plain"@,
            "Failed to parse token response"@,
        ),
    }
}

/// The success page address that carries the session identifier.
pub open spec fn success_location(success_url: Seq<char>, session_id: Seq<char>) -> Seq<char> {
    success_url + "?session_id="@ + session_id
}

/// The end of a callback whose exchange has yielded `token`: the token is
/// granted under `session_id` for the session time-to-live, and the browser
/// is redirected to the success page with the identifier, never the token.
pub open spec fn granted(
    token: Seq<char>,
    session_id: Seq<char>,
    success_url: Seq<char>,
) -> CallbackResultView {
    CallbackResultView {
        response: redirect_reply(success_location(success_url, session_id)),
        grant: Some(
            SessionGrantView { session_id, token, ttl_seconds: SESSION_TTL_SECONDS as nat },
        ),
    }
}

/// The end of a callback whose exchange has failed: a server error, and nothing to store.
pub open spec fn refused(error: ExchangeError) -> CallbackResultView {
    CallbackResultView { response: exchange_failure_reply(error), grant: None }
}

/// The store after a callback that ended with `grant` at `now`.
pub open spec fn sessions_after_callback(
    sessions: Sessions,
    grant: Option<SessionGrantView>,
    now: nat,
) -> Sessions {
    match grant {
        Some(grant) => sessions.insert(
            grant.session_id,
            new_record(grant.token, grant.ttl_seconds, now),
        ),
        None => sessions,
    }
}

/// First step of the callback. A request without a `code`, or with an empty
/// one, is rejected with 400; otherwise the code is to be exchanged.
pub fn handle_auth_callback(query: &Query, config: &Config) -> (step: CallbackStep)
    ensures
        match required_value(query@, "code"@) {
            None => step matches CallbackStep::Reject(response) && response@
                == missing_code_reply(),
            Some(code) => step matches CallbackStep::Exchange(request) && request@
                == exchange_request(*config, code),
        },
{
    match query.required("code") {
        Some(code) => CallbackStep::Exchange(build_exchange_request(config, code)),
        None => CallbackStep::Reject(Response::text(400, "text/plain", "Invalid code")),
    }
}

/// Ends a callback whose exchange has yielded `token`, with `session_id` as
/// the identifier of the new session.
pub fn grant_session(token: String, session_id: String, success_url: &str) -> (result:
    CallbackResult)
    ensures
        result@ == granted(token@, session_id@, success_url@),
{
    let mut location: String = success_url.to_owned();
    location.append("?session_id=");
    location.append(session_id.as_str());
    CallbackResult {
        response: Response::redirect(location),
        grant: Some(SessionGrant { session_id, token, ttl_seconds: SESSION_TTL_SECONDS }),
    }
}

/// Ends a callback whose exchange has failed.
pub fn refuse_exchange(error: ExchangeError) -> (result: CallbackResult)
    ensures
        result@ == refused(error),
{
    let response = match error {
        ExchangeError::Transport => Response::text(500, "text/plain", "Failed to exchange token"),
        ExchangeError::Contract => Response::text(
            500,
            "text/plain",
            "Failed to parse token response",
        ),
    };
    CallbackResult { response, grant: None }
}

/// Second step of the callback, given what came back from the provider.
///
/// A failed exchange ends in a server error with nothing to store. A token
/// is granted under a freshly drawn identifier; which one is not known
/// beforehand, only its shape.
pub fn finish_auth_callback(outcome: &ExchangeOutcome, config: &Config) -> (result: CallbackResult)
    ensures
        match exchanged_token(*outcome) {
            Err(error) => result@ == refused(error),
            Ok(token) => result@.grant matches Some(grant) && is_session_id(grant.session_id)
                && result@ == granted(token, grant.session_id, config.success_url@),
        },
{
    match read_exchange(outcome) {
        Ok(token) => grant_session(token, fresh_session_id(), config.success_url.as_str()),
        Err(error) => refuse_exchange(error),
    }
}

/// Second step of the callback against a store: finishes the callback and
/// writes the granted session, if any, at `now`. Exactly one entry is written
/// for a token, and none for a failure.
pub fn complete_auth_callback(
    store: &mut SessionStore,
    outcome: &ExchangeOutcome,
    config: &Config,
    now: u64,
) -> (result: CallbackResult)
    ensures
        match exchanged_token(*outcome) {
            Err(error) => result@ == refused(error),
            Ok(token) => result@.grant matches Some(grant) && is_session_id(grant.session_id)
                && result@ == granted(token, grant.session_id, config.success_url@),
        },
        final(store)@ == sessions_after_callback(old(store)@, result@.grant, now as nat),
{
    let result = finish_auth_callback(outcome, config);
    match &result.grant {
        Some(grant) => {
            store.put(grant.session_id.as_str(), grant.token.as_str(), grant.ttl_seconds, now);
        },
        None => {},
    }
    result
}

} // verus!
