//! The session store: which refresh token authenticates which identity, and
//! until when.
//!
//! An entry is the sole authority on whether a refresh token still holds.
//! It goes when it is deleted, and it counts as gone from the second in
//! which its time-to-live has passed; nothing outside the store decides
//! either. The store keeps no clock of its own: every operation that looks
//! at time is told the present second.

use crate::identity::Identity;
use vstd::prelude::*;

verus! {

/// What the store knows of one refresh token.
pub ghost struct Session {
    /// The identity that the token authenticates.
    pub identity: Identity,
    /// The first second at which the entry counts as gone.
    pub expires_at: int,
}

/// One stored entry.
struct SessionEntry {
    token: String,
    identity: Identity,
    stored_at: i64,
    ttl: u64,
}

impl SessionEntry {
    spec fn session(self) -> Session {
        Session { identity: self.identity, expires_at: self.stored_at + self.ttl }
    }

    /// Whether the entry's time-to-live has not passed at the second `now`.
    fn live_at(&self, now: i64) -> (live: bool)
        ensures
            live == (now < self.session().expires_at),
    {
        self.stored_at as i128 + (self.ttl as i128) > now as i128
    }

    fn copy(&self) -> (copy: SessionEntry)
        ensures
            copy == *self,
    {
        SessionEntry {
            token: self.token.clone(),
            identity: self.identity,
            stored_at: self.stored_at,
            ttl: self.ttl,
        }
    }
}

/// No token has two entries.
spec fn distinct_tokens(entries: Seq<SessionEntry>) -> bool {
    forall|i: int, j: int| 0 <= i < j < entries.len() ==> entries[i].token@ != entries[j].token@
}

/// The sessions that a sequence of entries stands for.
spec fn sessions_of(entries: Seq<SessionEntry>) -> Map<Seq<char>, Session>
    decreases entries.len(),
{
    if entries.len() == 0 {
        Map::empty()
    } else {
        sessions_of(entries.drop_last()).insert(entries.last().token@, entries.last().session())
    }
}

proof fn lemma_sessions_of_push(entries: Seq<SessionEntry>, entry: SessionEntry)
    ensures
        sessions_of(entries.push(entry)) == sessions_of(entries).insert(
            entry.token@,
            entry.session(),
        ),
{
    assert(entries.push(entry).drop_last() =~= entries);
}

/// Every token among the sessions is the token of an entry.
proof fn lemma_session_has_entry(entries: Seq<SessionEntry>, token: Seq<char>)
    requires
        sessions_of(entries).contains_key(token),
    ensures
        exists|k: int| 0 <= k < entries.len() && entries[k].token@ == token,
    decreases entries.len(),
{
    if entries.len() > 0 {
        if entries.last().token@ == token {
            assert(entries[entries.len() - 1].token@ == token);
        } else {
            lemma_session_has_entry(entries.drop_last(), token);
            let k = choose|k: int|
                0 <= k < entries.drop_last().len() && entries.drop_last()[k].token@ == token;
            assert(entries[k].token@ == token);
        }
    }
}

/// The identity that a token authenticates at the second `now` in a given
/// set of sessions: that of its entry, if there is one whose time-to-live
/// has not passed.
pub open spec fn lookup(sessions: Map<Seq<char>, Session>, token: Seq<char>, now: int) -> Option<
    Identity,
> {
    if sessions.contains_key(token) && now < sessions[token].expires_at {
        Some(sessions[token].identity)
    } else {
        None
    }
}

/// The sessions whose time-to-live has not passed at the second `now`.
pub open spec fn live_at(sessions: Map<Seq<char>, Session>, now: int) -> Map<Seq<char>, Session> {
    Map::new(
        |token: Seq<char>| sessions.contains_key(token) && now < sessions[token].expires_at,
        |token: Seq<char>| sessions[token],
    )
}

/// The entries without those of one token.
fn without_token(entries: &Vec<SessionEntry>, key: &String) -> (kept: Vec<SessionEntry>)
    requires
        distinct_tokens(entries@),
    ensures
        distinct_tokens(kept@),
        sessions_of(kept@) == sessions_of(entries@).remove(key@),
        forall|j: int| 0 <= j < kept@.len() ==> kept@[j].token@ != key@,
{
    let mut kept: Vec<SessionEntry> = Vec::new();
    let ghost mut origin: Seq<int> = Seq::empty();
    let mut i: usize = 0;
    while i < entries.len()
        invariant
            i <= entries.len(),
            distinct_tokens(entries@),
            origin.len() == kept@.len(),
            forall|j: int| 0 <= j < kept@.len() ==> 0 <= #[trigger] origin[j] < i && kept@[j]
                == entries@[origin[j]],
            forall|j: int, k: int| 0 <= j < k < kept@.len() ==> origin[j] < origin[k],
            forall|j: int| 0 <= j < kept@.len() ==> (#[trigger] kept@[j]).token@ != key@,
            sessions_of(kept@) == sessions_of(entries@.take(i as int)).remove(key@),
        decreases entries.len() - i,
    {
        let entry = &entries[i];
        proof {
            assert(entries@.take(i + 1) =~= entries@.take(i as int).push(*entry));
            lemma_sessions_of_push(entries@.take(i as int), *entry);
        }
        if entry.token != *key {
            let copy = entry.copy();
            proof {
                lemma_sessions_of_push(kept@, copy);
                assert(sessions_of(kept@).insert(copy.token@, copy.session()) =~= sessions_of(
                    entries@.take(i + 1),
                ).remove(key@));
                origin = origin.push(i as int);
            }
            kept.push(copy);
        } else {
            assert(sessions_of(kept@) =~= sessions_of(entries@.take(i + 1)).remove(key@));
        }
        i += 1;
    }
    proof {
        assert(entries@.take(i as int) =~= entries@);
        assert forall|j: int, k: int| 0 <= j < k < kept@.len() implies kept@[j].token@
            != kept@[k].token@ by {
            assert(origin[j] < origin[k]);
        }
    }
    kept
}

/// The entries without those whose time-to-live has passed at `now`.
fn without_expired(entries: &Vec<SessionEntry>, now: i64) -> (kept: Vec<SessionEntry>)
    requires
        distinct_tokens(entries@),
    ensures
        distinct_tokens(kept@),
        sessions_of(kept@) == live_at(sessions_of(entries@), now as int),
{
    let mut kept: Vec<SessionEntry> = Vec::new();
    let ghost mut origin: Seq<int> = Seq::empty();
    let mut i: usize = 0;
    proof {
        assert(sessions_of(kept@) =~= live_at(sessions_of(entries@.take(0)), now as int));
    }
    while i < entries.len()
        invariant
            i <= entries.len(),
            distinct_tokens(entries@),
            origin.len() == kept@.len(),
            forall|j: int| 0 <= j < kept@.len() ==> 0 <= #[trigger] origin[j] < i && kept@[j]
                == entries@[origin[j]],
            forall|j: int, k: int| 0 <= j < k < kept@.len() ==> origin[j] < origin[k],
            sessions_of(kept@) == live_at(sessions_of(entries@.take(i as int)), now as int),
        decreases entries.len() - i,
    {
        let entry = &entries[i];
        proof {
            let before = entries@.take(i as int);
            assert(entries@.take(i + 1) =~= before.push(*entry));
            lemma_sessions_of_push(before, *entry);
            if sessions_of(before).contains_key(entry.token@) {
                lemma_session_has_entry(before, entry.token@);
                let k = choose|k: int| 0 <= k < before.len() && before[k].token@ == entry.token@;
                assert(entries@[k].token@ == entries@[i as int].token@);
            }
        }
        if entry.live_at(now) {
            let copy = entry.copy();
            proof {
                lemma_sessions_of_push(kept@, copy);
                assert(sessions_of(kept@).insert(copy.token@, copy.session()) =~= live_at(
                    sessions_of(entries@.take(i + 1)),
                    now as int,
                ));
                origin = origin.push(i as int);
            }
            kept.push(copy);
        } else {
            assert(sessions_of(kept@) =~= live_at(sessions_of(entries@.take(i + 1)), now as int));
        }
        i += 1;
    }
    proof {
        assert(entries@.take(i as int) =~= entries@);
        assert forall|j: int, k: int| 0 <= j < k < kept@.len() implies kept@[j].token@
            != kept@[k].token@ by {
            assert(origin[j] < origin[k]);
        }
    }
    kept
}

/// A session store held in memory. No refresh token has more than one
/// entry in it.
pub struct SessionStore {
    entries: Vec<SessionEntry>,
}

impl View for SessionStore {
    type V = Map<Seq<char>, Session>;

    closed spec fn view(&self) -> Map<Seq<char>, Session> {
        sessions_of(self.entries@)
    }
}

impl SessionStore {
    #[verifier::type_invariant]
    spec fn well_formed(self) -> bool {
        distinct_tokens(self.entries@)
    }

    /// A store without entries.
    pub fn new() -> (store: SessionStore)
        ensures
            store@ == Map::<Seq<char>, Session>::empty(),
    {
        SessionStore { entries: Vec::new() }
    }

    /// Records that `refresh_token` authenticates `identity` for `ttl`
    /// seconds from the second `now`. An earlier entry for the same token
    /// is replaced, its time-to-live with it.
    pub fn put(&mut self, refresh_token: &str, identity: Identity, ttl: u64, now: i64)
        ensures
            final(self)@ == old(self)@.insert(
                refresh_token@,
                Session { identity, expires_at: now + ttl },
            ),
    {
        proof {
            use_type_invariant(&*self);
        }
        let key = refresh_token.to_owned();
        let mut kept = without_token(&self.entries, &key);
        let entry = SessionEntry { token: key, identity, stored_at: now, ttl };
        proof {
            lemma_sessions_of_push(kept@, entry);
            assert(old(self)@.remove(refresh_token@).insert(refresh_token@, entry.session())
                =~= old(self)@.insert(refresh_token@, entry.session()));
        }
        kept.push(entry);
        self.entries = kept;
    }

    /// The identity that `refresh_token` authenticates at the second `now`.
    ///
    /// `None` says that there is no such session, and not why: a token that
    /// was never stored, one that was deleted and one whose time-to-live has
    /// passed all look the same.
    pub fn get(&self, refresh_token: &str, now: i64) -> (owner: Option<Identity>)
        ensures
            owner == lookup(self@, refresh_token@, now as int),
    {
        let key = refresh_token.to_owned();
        let mut owner: Option<Identity> = None;
        let mut i: usize = 0;
        while i < self.entries.len()
            invariant
                i <= self.entries.len(),
                key@ == refresh_token@,
                owner == lookup(sessions_of(self.entries@.take(i as int)), refresh_token@, now as int),
            decreases self.entries.len() - i,
        {
            let entry = &self.entries[i];
            proof {
                assert(self.entries@.take(i + 1) =~= self.entries@.take(i as int).push(*entry));
                lemma_sessions_of_push(self.entries@.take(i as int), *entry);
            }
            if entry.token == key {
                if entry.live_at(now) {
                    owner = Some(entry.identity);
                } else {
                    owner = None;
                }
            }
            i += 1;
        }
        proof {
            assert(self.entries@.take(i as int) =~= self.entries@);
        }
        owner
    }

    /// Revokes `refresh_token`. Deleting a token that has no entry changes
    /// nothing and is no error.
    pub fn delete(&mut self, refresh_token: &str)
        ensures
            final(self)@ == old(self)@.remove(refresh_token@),
    {
        proof {
            use_type_invariant(&*self);
        }
        let key = refresh_token.to_owned();
        let kept = without_token(&self.entries, &key);
        self.entries = kept;
    }

    /// Drops every entry whose time-to-live has passed at the second `now`.
    /// Such an entry authenticates nobody from that second on, so this
    /// frees memory and changes no answer for `now` or any later second.
    pub fn purge_expired(&mut self, now: i64)
        ensures
            final(self)@ == live_at(old(self)@, now as int),
    {
        proof {
            use_type_invariant(&*self);
        }
        let kept = without_expired(&self.entries, now);
        self.entries = kept;
    }

    /// How many entries the store holds, those whose time-to-live has
    /// passed and that were not yet dropped among them.
    pub fn len(&self) -> (count: usize)
        ensures
            count == self@.dom().len(),
            self@.dom().finite(),
    {
        proof {
            use_type_invariant(&*self);
            lemma_sessions_count(self.entries@);
        }
        self.entries.len()
    }
}

/// With no token listed twice, there are as many sessions as entries.
proof fn lemma_sessions_count(entries: Seq<SessionEntry>)
    requires
        distinct_tokens(entries),
    ensures
        sessions_of(entries).dom().finite(),
        sessions_of(entries).dom().len() == entries.len(),
    decreases entries.len(),
{
    if entries.len() > 0 {
        let before = entries.drop_last();
        lemma_sessions_count(before);
        if sessions_of(before).contains_key(entries.last().token@) {
            lemma_session_has_entry(before, entries.last().token@);
            let k = choose|k: int| 0 <= k < before.len() && before[k].token@ == entries.last().token@;
            assert(entries[k].token@ == entries[entries.len() - 1].token@);
        }
        assert(sessions_of(entries).dom() =~= sessions_of(before).dom().insert(
            entries.last().token@,
        ));
    }
}

/// Right after a token is stored with a time-to-live of at least a second,
/// it authenticates the identity it was stored for.
pub proof fn lemma_get_after_put(
    sessions: Map<Seq<char>, Session>,
    token: Seq<char>,
    identity: Identity,
    ttl: u64,
    now: i64,
)
    requires
        ttl > 0,
    ensures
        lookup(sessions.insert(token, Session { identity, expires_at: now + ttl }), token, now as int)
            == Some(identity),
{
}

/// Once a token is deleted it authenticates nobody, at no second.
pub proof fn lemma_get_after_delete(sessions: Map<Seq<char>, Session>, token: Seq<char>, now: int)
    ensures
        lookup(sessions.remove(token), token, now) is None,
{
}

/// From the second in which its time-to-live has passed, a stored token
/// authenticates nobody.
pub proof fn lemma_get_after_expiry(
    sessions: Map<Seq<char>, Session>,
    token: Seq<char>,
    identity: Identity,
    ttl: u64,
    now: i64,
    later: int,
)
    requires
        later >= now + ttl,
    ensures
        lookup(sessions.insert(token, Session { identity, expires_at: now + ttl }), token, later)
            is None,
{
}

/// A token that authenticates nobody at one second authenticates nobody at
/// any later second either, as long as it is not stored anew: neither the
/// passing of time nor what happens to other tokens brings a session back.
pub proof fn lemma_gone_stays_gone(
    sessions: Map<Seq<char>, Session>,
    token: Seq<char>,
    other: Seq<char>,
    session: Session,
    now: int,
    later: int,
)
    requires
        lookup(sessions, token, now) is None,
        later >= now,
        other != token,
    ensures
        lookup(sessions, token, later) is None,
        lookup(sessions.insert(other, session), token, later) is None,
        lookup(sessions.remove(other), token, later) is None,
        lookup(live_at(sessions, now), token, later) is None,
{
}

/// Dropping the entries whose time-to-live has passed changes no answer at
/// that second or any later one.
pub proof fn lemma_purge_keeps_answers(
    sessions: Map<Seq<char>, Session>,
    token: Seq<char>,
    now: int,
    later: int,
)
    requires
        later >= now,
    ensures
        lookup(live_at(sessions, now), token, later) == lookup(sessions, token, later),
{
}

/// Storing or deleting one token leaves what every other token
/// authenticates as it was.
pub proof fn lemma_other_tokens_untouched(
    sessions: Map<Seq<char>, Session>,
    token: Seq<char>,
    session: Session,
    other: Seq<char>,
    now: int,
)
    requires
        other != token,
    ensures
        lookup(sessions.insert(token, session), other, now) == lookup(sessions, other, now),
        lookup(sessions.remove(token), other, now) == lookup(sessions, other, now),
{
}

} // verus!
