//! What the handoff guarantees across calls: one entry per successful
//! callback, none for a failed one, and a token that is delivered at most
//! once and only within its time-to-live.

use vstd::prelude::*;
use vstd::utf8::{encode_utf8, encode_utf8_decode_utf8};
use crate::callback::{granted, refused, sessions_after_callback, SessionGrantView};
use crate::exchange::{access_token_in, exchanged_token, is_success, ExchangeError, ExchangeOutcome};
use crate::json::json_parsed_members;
use crate::session::{live_sessions, live_token, new_record, Sessions, SESSION_TTL_SECONDS};
use crate::status::{
    authorized_body, authorized_reply, pending_reply, poll_reply, sessions_after_poll,
    status_result, StoreReadingView,
};

verus! {

/// One completed request against the store.
pub enum Step {
    /// A callback that ended at `at`, with the session it granted, if any.
    Callback { grant: Option<SessionGrantView>, at: nat },
    /// A status poll for `session_id`.
    Poll { session_id: Seq<char> },
    /// A sweep of the expired entries at `at`.
    Purge { at: nat },
}

/// The store after one more request.
pub open spec fn sessions_after_step(sessions: Sessions, step: Step) -> Sessions {
    match step {
        Step::Callback { grant, at } => sessions_after_callback(sessions, grant, at),
        Step::Poll { session_id } => sessions_after_poll(sessions, session_id),
        Step::Purge { at } => live_sessions(sessions, at),
    }
}

/// The store after a history of requests, starting from `start`.
pub open spec fn sessions_after_steps_from(start: Sessions, steps: Seq<Step>) -> Sessions
    decreases steps.len(),
{
    if steps.len() == 0 {
        start
    } else {
        sessions_after_step(sessions_after_steps_from(start, steps.drop_last()), steps.last())
    }
}

/// The store after a history of requests, starting empty.
pub open spec fn sessions_after_steps(steps: Seq<Step>) -> Sessions {
    sessions_after_steps_from(Sessions::empty(), steps)
}

/// Whether the callback at position `i` of a history granted `id`.
pub open spec fn grants_at(steps: Seq<Step>, i: int, id: Seq<char>) -> bool {
    0 <= i < steps.len() && match steps[i] {
        Step::Callback { grant: Some(grant), .. } => grant.session_id == id,
        _ => false,
    }
}

/// Whether some callback of a history granted `id`.
pub open spec fn granted_in(steps: Seq<Step>, id: Seq<char>) -> bool {
    exists|i: int| grants_at(steps, i, id)
}

/// A successful callback writes exactly one entry: the new identifier maps
/// to the provider's token, created at the time of the callback with the
/// session time-to-live, and every other identifier is as it was. The token
/// can be read at once.
pub proof fn callback_creates_one_entry(
    sessions: Sessions,
    token: Seq<char>,
    session_id: Seq<char>,
    success_url: Seq<char>,
    now: nat,
)
    ensures
        ({
            let after = sessions_after_callback(
                sessions,
                granted(token, session_id, success_url).grant,
                now,
            );
            &&& after.dom() == sessions.dom().insert(session_id)
            &&& after[session_id] == new_record(token, SESSION_TTL_SECONDS as nat, now)
            &&& forall|other: Seq<char>|
                other != session_id ==> after.contains_key(other) == sessions.contains_key(other)
                    && after[other] == sessions[other]
            &&& live_token(after, session_id, now) == Some(token)
        }),
{
    let after = sessions_after_callback(
        sessions,
        granted(token, session_id, success_url).grant,
        now,
    );
    assert(after.dom() =~= sessions.dom().insert(session_id));
}

/// A reply with a status outside 200..=299, a body that is not JSON, and a
/// JSON body without a string member `access_token` each yield no token.
pub proof fn failed_exchange_yields_no_token(status: u16, body: Vec<u8>)
    ensures
        exchanged_token(ExchangeOutcome::Failed) == Err::<Seq<char>, ExchangeError>(
            ExchangeError::Transport,
        ),
        !is_success(status as int) ==> exchanged_token(ExchangeOutcome::Replied { status, body })
            == Err::<Seq<char>, ExchangeError>(ExchangeError::Transport),
        is_success(status as int) && json_parsed_members(body@) is None ==> exchanged_token(
            ExchangeOutcome::Replied { status, body },
        ) == Err::<Seq<char>, ExchangeError>(ExchangeError::Contract),
        is_success(status as int) && access_token_in(body@) is None ==> exchanged_token(
            ExchangeOutcome::Replied { status, body },
        ) == Err::<Seq<char>, ExchangeError>(ExchangeError::Contract),
{
}

/// A callback whose exchange has failed answers with status 500 and leaves
/// the store as it was, so every later poll is answered as it would have
/// been without the callback.
pub proof fn failed_callback_stores_nothing(sessions: Sessions, error: ExchangeError, now: nat)
    ensures
        refused(error).response.status == 500,
        sessions_after_callback(sessions, refused(error).grant, now) == sessions,
        forall|id: Seq<char>, later: nat|
            poll_reply(sessions_after_callback(sessions, refused(error).grant, now), id, later)
                == #[trigger] poll_reply(sessions, id, later),
{
}

/// Nothing but a callback that grants it brings an identifier into the
/// store: an identifier that is absent stays absent through any history in
/// which no callback grants it.
pub proof fn absent_session_stays_absent(start: Sessions, steps: Seq<Step>, id: Seq<char>)
    requires
        !start.contains_key(id),
        !granted_in(steps, id),
    ensures
        !sessions_after_steps_from(start, steps).contains_key(id),
    decreases steps.len(),
{
    if steps.len() > 0 {
        let before = steps.drop_last();
        assert(!granted_in(before, id)) by {
            if granted_in(before, id) {
                let i = choose|i: int| grants_at(before, i, id);
                assert(grants_at(steps, i, id));
            }
        }
        absent_session_stays_absent(start, before, id);
        assert(!grants_at(steps, steps.len() - 1, id));
    }
}

/// A poll for an identifier that no callback has granted is answered
/// "pending", whatever else has happened and whenever it is asked.
pub proof fn unknown_session_is_pending(steps: Seq<Step>, id: Seq<char>, now: nat)
    requires
        !granted_in(steps, id),
    ensures
        poll_reply(sessions_after_steps(steps), id, now) == pending_reply(),
{
    absent_session_stays_absent(Sessions::empty(), steps, id);
}

/// Once a poll has asked for an identifier, every later poll for it is
/// answered "pending", through any further history in which no callback
/// grants it again.
pub proof fn polled_session_stays_pending(
    sessions: Sessions,
    steps: Seq<Step>,
    id: Seq<char>,
    now: nat,
)
    requires
        !granted_in(steps, id),
    ensures
        poll_reply(
            sessions_after_steps_from(sessions_after_poll(sessions, id), steps),
            id,
            now,
        ) == pending_reply(),
{
    absent_session_stays_absent(sessions_after_poll(sessions, id), steps, id);
}

/// Expiry is final: what cannot be read at one time cannot be read at any
/// later time either.
pub proof fn expiry_is_final(sessions: Sessions, id: Seq<char>, now: nat, later: nat)
    requires
        now <= later,
        live_token(sessions, id, now) is None,
    ensures
        live_token(sessions, id, later) is None,
        poll_reply(sessions, id, later) == pending_reply(),
{
}

/// A poll is answered from the entry under its own identifier alone: what
/// is stored under another identifier has no part in the answer.
pub proof fn poll_reads_only_its_entry(
    sessions: Sessions,
    id: Seq<char>,
    grant: SessionGrantView,
    at: nat,
    now: nat,
)
    requires
        grant.session_id != id,
    ensures
        poll_reply(sessions_after_callback(sessions, Some(grant), at), id, now) == poll_reply(
            sessions,
            id,
            now,
        ),
{
}

/// A store that cannot be reached is reported as an error: the answer is
/// neither "pending" nor a token, and nothing is consumed.
pub proof fn unavailable_store_is_an_error(token: Seq<char>)
    ensures
        status_result(StoreReadingView::Unavailable).response.status == 500,
        !status_result(StoreReadingView::Unavailable).consume,
        status_result(StoreReadingView::Unavailable).response != pending_reply(),
        status_result(StoreReadingView::Unavailable).response != authorized_reply(token),
{
}

/// Once the time-to-live has elapsed since the callback, a poll is answered
/// "pending", exactly as for an identifier that was never stored.
pub proof fn expired_session_is_pending(
    sessions: Sessions,
    token: Seq<char>,
    session_id: Seq<char>,
    success_url: Seq<char>,
    created: nat,
    now: nat,
)
    requires
        now >= created + SESSION_TTL_SECONDS,
    ensures
        ({
            let after = sessions_after_callback(
                sessions,
                granted(token, session_id, success_url).grant,
                created,
            );
            &&& poll_reply(after, session_id, now) == pending_reply()
            &&& poll_reply(after, session_id, now) == poll_reply(
                Sessions::empty(),
                session_id,
                now,
            )
        }),
{
}

/// The first poll for a fresh, unexpired session hands out the token; after
/// it nothing is stored under the identifier, and every further poll for it
/// is answered "pending".
pub proof fn token_is_delivered_once(
    sessions: Sessions,
    token: Seq<char>,
    session_id: Seq<char>,
    success_url: Seq<char>,
    created: nat,
    first: nat,
    second: nat,
)
    requires
        first < created + SESSION_TTL_SECONDS,
    ensures
        ({
            let stored = sessions_after_callback(
                sessions,
                granted(token, session_id, success_url).grant,
                created,
            );
            let polled = sessions_after_poll(stored, session_id);
            &&& poll_reply(stored, session_id, first) == authorized_reply(token)
            &&& !polled.contains_key(session_id)
            &&& poll_reply(polled, session_id, second) == pending_reply()
        }),
{
}

/// A sweep of the expired entries changes no answer: at the time of the
/// sweep and at any later time, every poll is answered as without it.
pub proof fn purge_changes_no_answer(sessions: Sessions, id: Seq<char>, at: nat, later: nat)
    requires
        at <= later,
    ensures
        poll_reply(live_sessions(sessions, at), id, later) == poll_reply(sessions, id, later),
{
}

/// A poll takes away only the entry it asks for: every other session is
/// read afterwards as before.
pub proof fn poll_leaves_other_sessions(
    sessions: Sessions,
    id: Seq<char>,
    other: Seq<char>,
    now: nat,
)
    requires
        other != id,
    ensures
        live_token(sessions_after_poll(sessions, id), other, now) == live_token(
            sessions,
            other,
            now,
        ),
{
}

/// The answer that hands out a token is never the "pending" answer.
pub proof fn authorized_is_not_pending(token: Seq<char>)
    ensures
        authorized_reply(token) != pending_reply(),
{
    let authorized = authorized_body(token);
    let pending = "{\"status\":\"pending\",\"token\":null}"@;
    reveal_strlit("{\"status\":\"authorized\",\"token\":");
    reveal_strlit("{\"status\":\"pending\",\"token\":null}");
    assert(authorized[11] == 'a');
    assert(pending[11] == 'p');
    encode_utf8_decode_utf8(authorized);
    encode_utf8_decode_utf8(pending);
    assert(encode_utf8(authorized) != encode_utf8(pending));
}

} // verus!
