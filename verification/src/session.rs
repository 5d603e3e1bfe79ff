//! The session store: an ephemeral map from session identifier to token, in
//! which an entry can be read only within its time-to-live and is handed out
//! at most once.
//!
//! Time is a count of seconds that the caller supplies with each operation.

use vstd::prelude::*;
use vstd::string::*;
use crate::query::text_of;

verus! {

/// Seconds for which a session entry can be read.
pub const SESSION_TTL_SECONDS: u64 = 120;

/// What the store holds under one session identifier.
pub struct SessionRecord {
    pub token: Seq<char>,
    pub created_at: nat,
    pub ttl_seconds: nat,
}

/// The store as a map from session identifier to record.
pub type Sessions = Map<Seq<char>, SessionRecord>;

/// An entry can be read at `now` while its time-to-live has not elapsed.
pub open spec fn is_live(record: SessionRecord, now: nat) -> bool {
    now < record.created_at + record.ttl_seconds
}

/// The token that can be read under `id` at `now`. It is absent alike where
/// the identifier was never stored, has expired, or has been taken.
pub open spec fn live_token(sessions: Sessions, id: Seq<char>, now: nat) -> Option<Seq<char>> {
    if sessions.contains_key(id) && is_live(sessions[id], now) {
        Some(sessions[id].token)
    } else {
        None
    }
}

/// The entries that can still be read at `now`.
pub open spec fn live_sessions(sessions: Sessions, now: nat) -> Sessions {
    Map::new(
        |id: Seq<char>| sessions.contains_key(id) && is_live(sessions[id], now),
        |id: Seq<char>| sessions[id],
    )
}

/// The record that a write at `now` stores.
pub open spec fn new_record(token: Seq<char>, ttl_seconds: nat, now: nat) -> SessionRecord {
    SessionRecord { token, created_at: now, ttl_seconds }
}

struct SessionEntry {
    id: String,
    token: String,
    created_at: u64,
    ttl_seconds: u64,
}

spec fn record_of(entry: SessionEntry) -> SessionRecord {
    SessionRecord {
        token: entry.token@,
        created_at: entry.created_at as nat,
        ttl_seconds: entry.ttl_seconds as nat,
    }
}

spec fn holds_at(entries: Seq<SessionEntry>, i: int, id: Seq<char>) -> bool {
    0 <= i < entries.len() && entries[i].id@ == id
}

spec fn distinct_ids(entries: Seq<SessionEntry>) -> bool {
    forall|i: int, j: int|
        0 <= i < j < entries.len() ==> (#[trigger] entries[i]).id@ != (#[trigger] entries[j]).id@
}

spec fn sessions_of(entries: Seq<SessionEntry>) -> Sessions {
    Map::new(
        |id: Seq<char>| exists|i: int| holds_at(entries, i, id),
        |id: Seq<char>| record_of(entries[choose|i: int| holds_at(entries, i, id)]),
    )
}

proof fn lemma_entry_is_mapped(entries: Seq<SessionEntry>, i: int)
    requires
        distinct_ids(entries),
        0 <= i < entries.len(),
    ensures
        sessions_of(entries).contains_key(entries[i].id@),
        sessions_of(entries)[entries[i].id@] == record_of(entries[i]),
{
    let id = entries[i].id@;
    assert(holds_at(entries, i, id));
    let j = choose|j: int| holds_at(entries, j, id);
    assert(holds_at(entries, j, id));
    if j < i {
        assert(entries[j].id@ != entries[i].id@);
    } else if i < j {
        assert(entries[i].id@ != entries[j].id@);
    }
}

proof fn lemma_absent_is_unmapped(entries: Seq<SessionEntry>, id: Seq<char>)
    requires
        forall|i: int| 0 <= i < entries.len() ==> (#[trigger] entries[i]).id@ != id,
    ensures
        !sessions_of(entries).contains_key(id),
{
    if sessions_of(entries).contains_key(id) {
        let j = choose|j: int| holds_at(entries, j, id);
        assert(holds_at(entries, j, id));
        assert(entries[j].id@ == id);
    }
}

proof fn lemma_push(entries: Seq<SessionEntry>, entry: SessionEntry)
    requires
        distinct_ids(entries),
        forall|i: int| 0 <= i < entries.len() ==> (#[trigger] entries[i]).id@ != entry.id@,
    ensures
        distinct_ids(entries.push(entry)),
        sessions_of(entries.push(entry)) == sessions_of(entries).insert(
            entry.id@,
            record_of(entry),
        ),
{
    let after = entries.push(entry);
    assert(distinct_ids(after)) by {
        assert forall|i: int, j: int| 0 <= i < j < after.len() implies (#[trigger] after[i]).id@
            != (#[trigger] after[j]).id@ by {
            if j < entries.len() {
                assert(entries[i].id@ != entries[j].id@);
            } else {
                assert(entries[i].id@ != entry.id@);
            }
        }
    }
    let want = sessions_of(entries).insert(entry.id@, record_of(entry));
    assert forall|id: Seq<char>| sessions_of(after).contains_key(id) <==> want.contains_key(id) by {
        if sessions_of(after).contains_key(id) {
            let j = choose|j: int| holds_at(after, j, id);
            assert(holds_at(after, j, id));
            if j < entries.len() {
                assert(holds_at(entries, j, id));
            }
        }
        if want.contains_key(id) {
            if id == entry.id@ {
                assert(holds_at(after, entries.len() as int, id));
            } else {
                let j = choose|j: int| holds_at(entries, j, id);
                assert(holds_at(entries, j, id));
                assert(holds_at(after, j, id));
            }
        }
    }
    assert forall|id: Seq<char>| sessions_of(after).contains_key(id) implies sessions_of(after)[id]
        == want[id] by {
        let j = choose|j: int| holds_at(after, j, id);
        assert(holds_at(after, j, id));
        lemma_entry_is_mapped(after, j);
        if j < entries.len() {
            assert(after[j] == entries[j]);
            lemma_entry_is_mapped(entries, j);
        }
    }
    assert(sessions_of(after) =~= want);
}

proof fn lemma_replace(entries: Seq<SessionEntry>, at: int, entry: SessionEntry)
    requires
        distinct_ids(entries),
        0 <= at < entries.len(),
        entries[at].id@ == entry.id@,
    ensures
        distinct_ids(entries.update(at, entry)),
        sessions_of(entries.update(at, entry)) == sessions_of(entries).insert(
            entry.id@,
            record_of(entry),
        ),
{
    let after = entries.update(at, entry);
    assert(distinct_ids(after)) by {
        assert forall|i: int, j: int| 0 <= i < j < after.len() implies (#[trigger] after[i]).id@
            != (#[trigger] after[j]).id@ by {
            assert(entries[i].id@ != entries[j].id@);
        }
    }
    let want = sessions_of(entries).insert(entry.id@, record_of(entry));
    assert forall|id: Seq<char>| sessions_of(after).contains_key(id) <==> want.contains_key(id) by {
        if sessions_of(after).contains_key(id) {
            let j = choose|j: int| holds_at(after, j, id);
            assert(holds_at(after, j, id));
            assert(holds_at(entries, j, id));
        }
        if want.contains_key(id) {
            if id == entry.id@ {
                assert(holds_at(after, at, id));
            } else {
                let j = choose|j: int| holds_at(entries, j, id);
                assert(holds_at(entries, j, id));
                assert(holds_at(after, j, id));
            }
        }
    }
    assert forall|id: Seq<char>| sessions_of(after).contains_key(id) implies sessions_of(after)[id]
        == want[id] by {
        let j = choose|j: int| holds_at(after, j, id);
        assert(holds_at(after, j, id));
        lemma_entry_is_mapped(after, j);
        if j != at {
            assert(after[j] == entries[j]);
            lemma_entry_is_mapped(entries, j);
        }
    }
    assert(sessions_of(after) =~= want);
}

proof fn lemma_remove(entries: Seq<SessionEntry>, at: int)
    requires
        distinct_ids(entries),
        0 <= at < entries.len(),
    ensures
        distinct_ids(entries.remove(at)),
        sessions_of(entries.remove(at)) == sessions_of(entries).remove(entries[at].id@),
{
    let after = entries.remove(at);
    let gone = entries[at].id@;
    assert forall|i: int| 0 <= i < after.len() implies #[trigger] after[i] == entries[if i < at {
        i
    } else {
        i + 1
    }] by {}
    assert(distinct_ids(after)) by {
        assert forall|i: int, j: int| 0 <= i < j < after.len() implies (#[trigger] after[i]).id@
            != (#[trigger] after[j]).id@ by {
            let a = if i < at { i } else { i + 1 };
            let b = if j < at { j } else { j + 1 };
            assert(entries[a].id@ != entries[b].id@);
        }
    }
    let want = sessions_of(entries).remove(gone);
    assert forall|id: Seq<char>| sessions_of(after).contains_key(id) <==> want.contains_key(id) by {
        if sessions_of(after).contains_key(id) {
            let j = choose|j: int| holds_at(after, j, id);
            assert(holds_at(after, j, id));
            let a = if j < at { j } else { j + 1 };
            assert(holds_at(entries, a, id));
            if a < at {
                assert(entries[a].id@ != entries[at].id@);
            } else {
                assert(entries[at].id@ != entries[a].id@);
            }
        }
        if want.contains_key(id) {
            let j = choose|j: int| holds_at(entries, j, id);
            assert(holds_at(entries, j, id));
            assert(j != at);
            let a = if j < at { j } else { j - 1 };
            assert(holds_at(after, a, id));
        }
    }
    assert forall|id: Seq<char>| sessions_of(after).contains_key(id) implies sessions_of(after)[id]
        == want[id] by {
        let j = choose|j: int| holds_at(after, j, id);
        assert(holds_at(after, j, id));
        lemma_entry_is_mapped(after, j);
        let a = if j < at { j } else { j + 1 };
        assert(after[j] == entries[a]);
        lemma_entry_is_mapped(entries, a);
    }
    assert(sessions_of(after) =~= want);
}

proof fn lemma_all_live(entries: Seq<SessionEntry>, now: nat)
    requires
        distinct_ids(entries),
        forall|i: int| 0 <= i < entries.len() ==> is_live(record_of(#[trigger] entries[i]), now),
    ensures
        live_sessions(sessions_of(entries), now) == sessions_of(entries),
{
    let all = sessions_of(entries);
    assert forall|id: Seq<char>| all.contains_key(id) implies is_live(all[id], now) by {
        let j = choose|j: int| holds_at(entries, j, id);
        assert(holds_at(entries, j, id));
        lemma_entry_is_mapped(entries, j);
    }
    assert(live_sessions(all, now) =~= all);
}

proof fn lemma_remove_expired(entries: Seq<SessionEntry>, at: int, now: nat)
    requires
        distinct_ids(entries),
        0 <= at < entries.len(),
        !is_live(record_of(entries[at]), now),
    ensures
        distinct_ids(entries.remove(at)),
        live_sessions(sessions_of(entries.remove(at)), now) == live_sessions(
            sessions_of(entries),
            now,
        ),
{
    lemma_remove(entries, at);
    lemma_entry_is_mapped(entries, at);
    assert(live_sessions(sessions_of(entries).remove(entries[at].id@), now) =~= live_sessions(
        sessions_of(entries),
        now,
    ));
}

/// The session store.
pub struct SessionStore {
    entries: Vec<SessionEntry>,
}

impl View for SessionStore {
    type V = Sessions;

    closed spec fn view(&self) -> Sessions {
        sessions_of(self.entries@)
    }
}

impl SessionStore {
    #[verifier::type_invariant]
    spec fn well_formed(&self) -> bool {
        distinct_ids(self.entries@)
    }

    /// An empty store.
    pub fn new() -> (store: SessionStore)
        ensures
            store@ == Sessions::empty(),
    {
        let store = SessionStore { entries: Vec::new() };
        assert(store@ =~= Sessions::empty()) by {
            assert forall|id: Seq<char>| !store@.contains_key(id) by {
                lemma_absent_is_unmapped(store.entries@, id);
            }
        }
        store
    }

    fn position(&self, id: &str) -> (at: Option<usize>)
        ensures
            match at {
                Some(i) => i < self.entries.len() && self.entries[i as int].id@ == id@,
                None => forall|i: int|
                    0 <= i < self.entries.len() ==> (#[trigger] self.entries[i]).id@ != id@,
            },
    {
        let wanted: String = id.to_owned();
        let mut i: usize = 0;
        while i < self.entries.len()
            invariant
                i <= self.entries.len(),
                wanted@ == id@,
                forall|j: int| 0 <= j < i ==> (#[trigger] self.entries[j]).id@ != id@,
            decreases self.entries.len() - i,
        {
            if self.entries[i].id == wanted {
                return Some(i);
            }
            i = i + 1;
        }
        None
    }

    /// Stores `token` under `id`, replacing what was there; the entry can be
    /// read for `ttl_seconds` from `now`.
    pub fn put(&mut self, id: &str, token: &str, ttl_seconds: u64, now: u64)
        ensures
            final(self)@ == old(self)@.insert(
                id@,
                new_record(token@, ttl_seconds as nat, now as nat),
            ),
    {
        proof {
            use_type_invariant(&*self);
        }
        let entry = SessionEntry {
            id: id.to_owned(),
            token: token.to_owned(),
            created_at: now,
            ttl_seconds,
        };
        let found = self.position(id);
        let mut entries: Vec<SessionEntry> = Vec::new();
        core::mem::swap(&mut self.entries, &mut entries);
        match found {
            Some(at) => {
                proof {
                    lemma_replace(entries@, at as int, entry);
                }
                entries.set(at, entry);
            },
            None => {
                proof {
                    lemma_push(entries@, entry);
                }
                entries.push(entry);
            },
        }
        core::mem::swap(&mut self.entries, &mut entries);
    }

    /// The token stored under `id`, if it can be read at `now`.
    pub fn get(&self, id: &str, now: u64) -> (token: Option<String>)
        ensures
            text_of(token) == live_token(self@, id@, now as nat),
    {
        proof {
            use_type_invariant(self);
        }
        match self.position(id) {
            Some(at) => {
                proof {
                    lemma_entry_is_mapped(self.entries@, at as int);
                }
                let entry = &self.entries[at];
                if now < entry.created_at || now - entry.created_at < entry.ttl_seconds {
                    Some(entry.token.clone())
                } else {
                    None
                }
            },
            None => {
                proof {
                    lemma_absent_is_unmapped(self.entries@, id@);
                }
                None
            },
        }
    }

    /// Drops every entry whose time-to-live has elapsed at `now`. What can
    /// still be read stays as it is.
    pub fn purge_expired(&mut self, now: u64)
        ensures
            final(self)@ == live_sessions(old(self)@, now as nat),
    {
        proof {
            use_type_invariant(&*self);
        }
        let ghost before = self.entries@;
        let mut entries: Vec<SessionEntry> = Vec::new();
        core::mem::swap(&mut self.entries, &mut entries);
        let mut i: usize = 0;
        while i < entries.len()
            invariant
                i <= entries.len(),
                distinct_ids(entries@),
                live_sessions(sessions_of(entries@), now as nat) == live_sessions(
                    sessions_of(before),
                    now as nat,
                ),
                forall|j: int| 0 <= j < i ==> is_live(record_of(#[trigger] entries[j]), now as nat),
            decreases entries.len() - i,
        {
            let live = now < entries[i].created_at || now - entries[i].created_at
                < entries[i].ttl_seconds;
            if live {
                i = i + 1;
            } else {
                proof {
                    lemma_remove_expired(entries@, i as int, now as nat);
                }
                let _ = entries.remove(i);
            }
        }
        proof {
            lemma_all_live(entries@, now as nat);
        }
        core::mem::swap(&mut self.entries, &mut entries);
    }

    /// Removes the entry under `id` and hands out its token, if it could be
    /// read at `now`. Afterwards nothing is stored under `id`.
    pub fn take(&mut self, id: &str, now: u64) -> (token: Option<String>)
        ensures
            text_of(token) == live_token(old(self)@, id@, now as nat),
            final(self)@ == old(self)@.remove(id@),
    {
        proof {
            use_type_invariant(&*self);
        }
        match self.position(id) {
            Some(at) => {
                proof {
                    lemma_entry_is_mapped(self.entries@, at as int);
                    lemma_remove(self.entries@, at as int);
                }
                let mut entries: Vec<SessionEntry> = Vec::new();
                core::mem::swap(&mut self.entries, &mut entries);
                let entry = entries.remove(at);
                core::mem::swap(&mut self.entries, &mut entries);
                if now < entry.created_at || now - entry.created_at < entry.ttl_seconds {
                    Some(entry.token)
                } else {
                    None
                }
            },
            None => {
                proof {
                    lemma_absent_is_unmapped(self.entries@, id@);
                    assert(self@ =~= self@.remove(id@));
                }
                None
            },
        }
    }
}

} // verus!
