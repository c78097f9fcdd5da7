//! Agent sessions: creation, activity, history and expiry.
//!
//! Times are whole seconds since the Unix epoch, read by the caller from the wall clock.

use crate::agent::context::copy_opt_string;
use crate::json::str_view;
use crate::keyed::{find_key, has_key, keys_unique, lemma_lookup_at, lemma_lookup_push, lemma_lookup_remove, lemma_lookup_update, lookup};
use crate::text::{push_str, strings_view};
use crate::types::agent::SessionState;
use crate::types::channel::{new_message_id, v4_uuid_text};
use std::collections::HashMap;
use vstd::prelude::*;

verus! {

/// One interaction within a session.
#[derive(Debug)]
pub struct InteractionRecord {
    pub timestamp: i64,
    pub intent: String,
    pub skill: Option<String>,
    pub result: Option<String>,
    pub success: bool,
}

/// What a session remembers.
#[derive(Debug)]
pub struct SessionContext {
    pub last_skill: Option<String>,
    pub last_parameters: HashMap<String, String>,
    pub history: Vec<InteractionRecord>,
}

/// A conversation with one user on one channel.
#[derive(Debug)]
pub struct Session {
    pub id: String,
    pub user_id: String,
    pub channel: String,
    pub thread_id: Option<String>,
    pub created_at: i64,
    pub last_activity: i64,
    pub state: SessionState,
    pub context: SessionContext,
}

fn copy_record(r: &InteractionRecord) -> (c: InteractionRecord)
    ensures
        c == *r,
{
    InteractionRecord {
        timestamp: r.timestamp,
        intent: r.intent.clone(),
        skill: copy_opt_string(&r.skill),
        result: copy_opt_string(&r.result),
        success: r.success,
    }
}

fn copy_params(m: &HashMap<String, String>) -> (c: HashMap<String, String>)
    ensures
        c@ == m@,
{
    m.clone()
}

/// An owned copy of a session.
pub fn copy_session(s: &Session) -> (c: Session)
    ensures
        c.id == s.id,
        c.user_id == s.user_id,
        c.channel == s.channel,
        c.thread_id == s.thread_id,
        c.created_at == s.created_at,
        c.last_activity == s.last_activity,
        c.state == s.state,
        c.context.last_skill == s.context.last_skill,
        c.context.last_parameters@ == s.context.last_parameters@,
        c.context.history@ == s.context.history@,
{
    let mut history: Vec<InteractionRecord> = Vec::new();
    let mut i: usize = 0;
    while i < s.context.history.len()
        invariant
            i <= s.context.history@.len(),
            history@ == s.context.history@.take(i as int),
        decreases s.context.history.len() - i,
    {
        history.push(copy_record(&s.context.history[i]));
        assert(history@ =~= s.context.history@.take(i + 1));
        i = i + 1;
    }
    assert(s.context.history@.take(i as int) =~= s.context.history@);
    Session {
        id: s.id.clone(),
        user_id: s.user_id.clone(),
        channel: s.channel.clone(),
        thread_id: copy_opt_string(&s.thread_id),
        created_at: s.created_at,
        last_activity: s.last_activity,
        state: s.state,
        context: SessionContext {
            last_skill: copy_opt_string(&s.context.last_skill),
            last_parameters: copy_params(&s.context.last_parameters),
            history,
        },
    }
}

/// Seconds since the last activity, as an unsigned count: a time in the future wraps to a very
/// large age, as the signed difference cast to `u64` does.
pub open spec fn age_secs(now: i64, last: i64) -> u64 {
    (now - last) as u64
}

/// A session may still be used: neither ended nor idle longer than the timeout.
pub open spec fn session_valid(s: Session, now: i64, timeout: u64) -> bool {
    s.state != SessionState::Expired && s.state != SessionState::Completed && age_secs(
        now,
        s.last_activity,
    ) <= timeout
}

/// The key `user:channel` or `user:channel:thread`.
pub open spec fn spec_session_key(user: Seq<char>, channel: Seq<char>, thread: Option<Seq<char>>) -> Seq<
    char,
> {
    match thread {
        Some(t) => user + ":"@ + channel + ":"@ + t,
        None => user + ":"@ + channel,
    }
}

pub open spec fn opt_str_view(t: Option<&str>) -> Option<Seq<char>> {
    match t {
        Some(s) => Some(s@),
        None => None,
    }
}

/// A list of identifiers without any occurrence of `x`, the others in order.
pub open spec fn without(ids: Seq<Seq<char>>, x: Seq<char>) -> Seq<Seq<char>>
    decreases ids.len(),
{
    if ids.len() == 0 {
        Seq::empty()
    } else {
        without(ids.drop_last(), x) + if ids.last() == x {
            Seq::<Seq<char>>::empty()
        } else {
            seq![ids.last()]
        }
    }
}

/// Keeps the sessions, for each user the identifiers of the sessions created for them, and for
/// each conversation key the identifier of the session last created for it.
pub struct SessionManager {
    sessions: Vec<(String, Session)>,
    user_sessions: Vec<(String, Vec<String>)>,
    by_key: Vec<(String, String)>,
    timeout_secs: u64,
}

fn age(now: i64, last: i64) -> (a: u64)
    ensures
        a == age_secs(now, last),
{
    let d: i128 = now as i128 - last as i128;
    d as u64
}

impl SessionManager {
    pub closed spec fn wf(&self) -> bool {
        keys_unique(self.sessions@) && keys_unique(self.user_sessions@) && keys_unique(self.by_key@)
    }

    /// The identifier of the session last created for a conversation key.
    pub closed spec fn session_for_key(&self, key: Seq<char>) -> Option<Seq<char>> {
        match lookup(self.by_key@, key) {
            Some(id) => Some(id@),
            None => None,
        }
    }

    /// The session stored under an identifier.
    pub closed spec fn session(&self, id: Seq<char>) -> Option<Session> {
        lookup(self.sessions@, id)
    }

    /// The identifiers of the sessions recorded for a user, in order.
    pub closed spec fn user_session_ids(&self, user: Seq<char>) -> Seq<Seq<char>> {
        match lookup(self.user_sessions@, user) {
            Some(v) => strings_view(v@),
            None => Seq::empty(),
        }
    }

    pub closed spec fn count(&self) -> nat {
        self.sessions@.len()
    }

    pub closed spec fn timeout(&self) -> u64 {
        self.timeout_secs
    }

    pub fn new(timeout_secs: u64) -> (m: SessionManager)
        ensures
            m.wf(),
            m.timeout() == timeout_secs,
            m.count() == 0,
            forall|id: Seq<char>| #[trigger] m.session(id) is None,
            forall|key: Seq<char>| #[trigger] m.session_for_key(key) is None,
    {
        SessionManager { sessions: Vec::new(), user_sessions: Vec::new(), by_key: Vec::new(), timeout_secs }
    }

    /// The key a user's conversation on a channel (and thread) is known by.
    pub fn session_key(&self, user_id: &str, channel: &str, thread_id: Option<&str>) -> (k: String)
        ensures
            k@ == spec_session_key(user_id@, channel@, opt_str_view(thread_id)),
    {
        let mut k = String::new();
        push_str(&mut k, user_id);
        push_str(&mut k, ":");
        push_str(&mut k, channel);
        match thread_id {
            Some(t) => {
                push_str(&mut k, ":");
                push_str(&mut k, t);
            },
            None => {},
        }
        k
    }

    /// Whether a session may still be used at `now`.
    pub fn is_session_valid(&self, session: &Session, now: i64) -> (b: bool)
        ensures
            b == session_valid(*session, now, self.timeout()),
    {
        if session.state == SessionState::Expired || session.state == SessionState::Completed {
            return false;
        }
        age(now, session.last_activity) <= self.timeout_secs
    }

    /// Creates an active session with a fresh identifier and an empty context.
    pub fn create_session(&mut self, user_id: &str, channel: &str, thread_id: Option<&str>, now: i64) -> (s:
        Session)
        requires
            old(self).wf(),
        ensures
            final(self).wf(),
            final(self).timeout() == old(self).timeout(),
            v4_uuid_text(s.id@),
            s.user_id@ == user_id@,
            s.channel@ == channel@,
            str_view(s.thread_id) == opt_str_view(thread_id),
            s.created_at == now,
            s.last_activity == now,
            s.state == SessionState::Active,
            s.context.last_skill is None,
            s.context.last_parameters@ == Map::<String, String>::empty(),
            s.context.history@.len() == 0,
            final(self).session(s.id@) matches Some(t) && t.id == s.id && t.user_id == s.user_id
                && t.channel == s.channel && t.thread_id == s.thread_id && t.created_at == now
                && t.last_activity == now && t.state == SessionState::Active
                && t.context.last_skill is None && t.context.history@.len() == 0,
            forall|id: Seq<char>|
                id != s.id@ ==> #[trigger] final(self).session(id) == old(self).session(id),
            final(self).session_for_key(spec_session_key(user_id@, channel@, opt_str_view(thread_id)))
                == Some(s.id@),
            final(self).count() == old(self).count() + (if old(self).session(s.id@) is Some {
                0int
            } else {
                1int
            }),
            forall|key: Seq<char>|
                key != spec_session_key(user_id@, channel@, opt_str_view(thread_id))
                    ==> #[trigger] final(self).session_for_key(key) == old(self).session_for_key(key),
    {
        let id = new_message_id();
        let session = Session {
            id: id.clone(),
            user_id: user_id.to_string(),
            channel: channel.to_string(),
            thread_id: match thread_id {
                Some(t) => Some(t.to_string()),
                None => None,
            },
            created_at: now,
            last_activity: now,
            state: SessionState::Active,
            context: SessionContext {
                last_skill: None,
                last_parameters: HashMap::new(),
                history: Vec::new(),
            },
        };
        let copy = copy_session(&session);
        let ghost s0 = self.sessions@;
        match find_key(&self.sessions, id.as_str()) {
            Some(i) => {
                let (key, _old) = self.sessions.remove(i);
                let ghost e = copy;
                self.sessions.insert(i, (key, copy));
                proof {
                    assert(self.sessions@ =~= s0.update(i as int, (s0[i as int].0, e)));
                    lemma_lookup_update(s0, i as int, e);
                }
            },
            None => {
                let key = id.clone();
                let ghost e = (key, copy);
                self.sessions.push((key, copy));
                proof {
                    lemma_lookup_push(s0, e);
                }
            },
        }
        let ghost us0 = self.user_sessions@;
        match find_key(&self.user_sessions, user_id) {
            Some(j) => {
                let (key, mut ids) = self.user_sessions.remove(j);
                ids.push(id);
                let ghost e = ids;
                self.user_sessions.insert(j, (key, ids));
                proof {
                    assert(self.user_sessions@ =~= us0.update(j as int, (us0[j as int].0, e)));
                    lemma_lookup_update(us0, j as int, e);
                }
            },
            None => {
                let key = user_id.to_string();
                let mut ids: Vec<String> = Vec::new();
                ids.push(id);
                let ghost e = (key, ids);
                self.user_sessions.push((key, ids));
                proof {
                    lemma_lookup_push(us0, e);
                }
            },
        }
        let conversation = self.session_key(user_id, channel, thread_id);
        let ghost bk0 = self.by_key@;
        match find_key(&self.by_key, conversation.as_str()) {
            Some(j) => {
                let (key, _old) = self.by_key.remove(j);
                let ghost e = session.id;
                self.by_key.insert(j, (key, session.id.clone()));
                proof {
                    assert(self.by_key@ =~= bk0.update(j as int, (bk0[j as int].0, e)));
                    lemma_lookup_update(bk0, j as int, e);
                }
            },
            None => {
                let ghost e = (conversation, session.id);
                self.by_key.push((conversation, session.id.clone()));
                proof {
                    lemma_lookup_push(bk0, e);
                }
            },
        }
        session
    }

    /// The session last created for the user's conversation on the channel (and thread) when it
    /// is still there and valid at `now`; else a new one, which the conversation then resolves
    /// to.
    pub fn get_or_create(&mut self, user_id: &str, channel: &str, thread_id: Option<&str>, now: i64) -> (s:
        Session)
        requires
            old(self).wf(),
        ensures
            final(self).wf(),
            final(self).timeout() == old(self).timeout(),
            ({
                let key = spec_session_key(user_id@, channel@, opt_str_view(thread_id));
                let found = match old(self).session_for_key(key) {
                    Some(id) => old(self).session(id),
                    None => None,
                };
                if found is Some && session_valid(found.unwrap(), now, old(self).timeout()) {
                    let t = found.unwrap();
                    &&& s.id == t.id && s.user_id == t.user_id && s.channel == t.channel
                        && s.thread_id == t.thread_id && s.last_activity == t.last_activity
                        && s.state == t.state
                    &&& forall|id: Seq<char>| #[trigger]
                        final(self).session(id) == old(self).session(id)
                    &&& forall|k: Seq<char>| #[trigger]
                        final(self).session_for_key(k) == old(self).session_for_key(k)
                    &&& final(self).count() == old(self).count()
                } else {
                    &&& v4_uuid_text(s.id@)
                    &&& s.user_id@ == user_id@
                    &&& s.channel@ == channel@
                    &&& str_view(s.thread_id) == opt_str_view(thread_id)
                    &&& s.created_at == now
                    &&& s.last_activity == now
                    &&& s.state == SessionState::Active
                    &&& s.context.history@.len() == 0
                    &&& final(self).session(s.id@) matches Some(u) && u.id == s.id
                        && u.last_activity == now && u.state == SessionState::Active
                    &&& forall|id: Seq<char>|
                        id != s.id@ ==> #[trigger] final(self).session(id) == old(self).session(id)
                    &&& final(self).session_for_key(key) == Some(s.id@)
                    &&& final(self).count() == old(self).count() + (if old(self).session(s.id@) is Some {
                        0int
                    } else {
                        1int
                    })
                }
            }),
    {
        let key = self.session_key(user_id, channel, thread_id);
        match find_key(&self.by_key, key.as_str()) {
            Some(j) => {
                proof {
                    lemma_lookup_at(self.by_key@, j as int);
                }
                match find_key(&self.sessions, self.by_key[j].1.as_str()) {
                    Some(i) => {
                        proof {
                            lemma_lookup_at(self.sessions@, i as int);
                        }
                        if self.is_session_valid(&self.sessions[i].1, now) {
                            return copy_session(&self.sessions[i].1);
                        }
                    },
                    None => {},
                }
            },
            None => {},
        }
        self.create_session(user_id, channel, thread_id, now)
    }

    /// A copy of the session under an identifier.
    pub fn get(&self, session_id: &str) -> (r: Option<Session>)
        requires
            self.wf(),
        ensures
            match self.session(session_id@) {
                Some(t) => r is Some && r.unwrap().id == t.id && r.unwrap().user_id == t.user_id
                    && r.unwrap().channel == t.channel && r.unwrap().thread_id == t.thread_id && r.unwrap().created_at
                    == t.created_at && r.unwrap().last_activity == t.last_activity && r.unwrap().state == t.state
                    && r.unwrap().context.last_skill == t.context.last_skill
                    && r.unwrap().context.last_parameters@ == t.context.last_parameters@
                    && r.unwrap().context.history@ == t.context.history@,
                None => r is None,
            },
    {
        match find_key(&self.sessions, session_id) {
            Some(i) => {
                proof {
                    lemma_lookup_at(self.sessions@, i as int);
                }
                Some(copy_session(&self.sessions[i].1))
            },
            None => None,
        }
    }

    /// Applies a change to the session under an identifier; false when there is none.
    fn update_with(&mut self, session_id: &str, state: Option<SessionState>, interaction: Option<InteractionRecord>, now: i64) -> (found: bool)
        requires
            old(self).wf(),
        ensures
            final(self).wf(),
            final(self).timeout() == old(self).timeout(),
            found == old(self).session(session_id@) is Some,
            forall|id: Seq<char>|
                id != session_id@ ==> #[trigger] final(self).session(id) == old(self).session(id),
            old(self).session(session_id@) is None ==> final(self).session(session_id@) is None,
            old(self).session(session_id@) matches Some(t) ==> final(self).session(session_id@) matches Some(u)
                && u.id == t.id && u.user_id == t.user_id && u.channel == t.channel && u.thread_id
                == t.thread_id && u.created_at == t.created_at && u.last_activity == now
                && u.state == (match state {
                Some(st) => st,
                None => t.state,
            }) && u.context.last_parameters == t.context.last_parameters && match interaction {
                Some(rec) => u.context.history@ == t.context.history@.push(rec)
                    && u.context.last_skill == rec.skill,
                None => u.context.history@ == t.context.history@ && u.context.last_skill
                    == t.context.last_skill,
            },
    {
        let ghost s0 = self.sessions@;
        match find_key(&self.sessions, session_id) {
            Some(i) => {
                proof {
                    lemma_lookup_at(s0, i as int);
                }
                let (key, mut session) = self.sessions.remove(i);
                session.last_activity = now;
                match state {
                    Some(st) => {
                        session.state = st;
                    },
                    None => {},
                }
                match interaction {
                    Some(rec) => {
                        session.context.last_skill = copy_opt_string(&rec.skill);
                        session.context.history.push(rec);
                    },
                    None => {},
                }
                let ghost e = session;
                self.sessions.insert(i, (key, session));
                proof {
                    assert(self.sessions@ =~= s0.update(i as int, (s0[i as int].0, e)));
                    lemma_lookup_update(s0, i as int, e);
                }
                true
            },
            None => false,
        }
    }

    /// Marks activity on a session; a copy of it, or `None` when there is no such session.
    pub fn touch(&mut self, session_id: &str, now: i64) -> (r: Option<Session>)
        requires
            old(self).wf(),
        ensures
            final(self).wf(),
            final(self).timeout() == old(self).timeout(),
            forall|id: Seq<char>|
                id != session_id@ ==> #[trigger] final(self).session(id) == old(self).session(id),
            old(self).session(session_id@) is None ==> r is None && final(self).session(session_id@) is None,
            old(self).session(session_id@) matches Some(t) ==> final(self).session(session_id@) matches Some(u)
                && u.id == t.id && u.user_id == t.user_id && u.last_activity == now && u.state
                == t.state && u.context.history@ == t.context.history@ && u.context.last_skill
                == t.context.last_skill && r is Some && r.unwrap().id == t.id && r.unwrap().last_activity
                == now,
    {
        if self.update_with(session_id, None, None, now) {
            self.get(session_id)
        } else {
            None
        }
    }

    /// Sets a session's state and marks activity.
    pub fn update_state(&mut self, session_id: &str, state: SessionState, now: i64) -> (r: Option<
        Session,
    >)
        requires
            old(self).wf(),
        ensures
            final(self).wf(),
            final(self).timeout() == old(self).timeout(),
            forall|id: Seq<char>|
                id != session_id@ ==> #[trigger] final(self).session(id) == old(self).session(id),
            old(self).session(session_id@) is None ==> r is None && final(self).session(session_id@) is None,
            old(self).session(session_id@) matches Some(t) ==> final(self).session(session_id@) matches Some(u)
                && u.id == t.id && u.user_id == t.user_id && u.last_activity == now && u.state
                == state && u.context.history@ == t.context.history@ && u.context.last_skill
                == t.context.last_skill && r is Some && r.unwrap().id == t.id && r.unwrap().state == state
                && r.unwrap().last_activity == now,
    {
        if self.update_with(session_id, Some(state), None, now) {
            self.get(session_id)
        } else {
            None
        }
    }

    /// Records an interaction on a session: appended to its history, its skill remembered as the
    /// last one, activity marked.
    pub fn add_interaction(
        &mut self,
        session_id: &str,
        intent: &str,
        skill: Option<&str>,
        result: Option<&str>,
        success: bool,
        now: i64,
    ) -> (r: Option<Session>)
        requires
            old(self).wf(),
        ensures
            final(self).wf(),
            final(self).timeout() == old(self).timeout(),
            forall|id: Seq<char>|
                id != session_id@ ==> #[trigger] final(self).session(id) == old(self).session(id),
            old(self).session(session_id@) is None ==> r is None && final(self).session(session_id@) is None,
            old(self).session(session_id@) matches Some(t) ==> final(self).session(session_id@) matches Some(u)
                && u.id == t.id && u.user_id == t.user_id && u.last_activity == now && u.state
                == t.state && u.context.history@.len() == t.context.history@.len() + 1
                && u.context.history@.take(t.context.history@.len() as int) == t.context.history@
                && u.context.history@.last().timestamp == now && u.context.history@.last().intent@
                == intent@ && str_view(u.context.history@.last().skill) == opt_str_view(skill)
                && str_view(u.context.history@.last().result) == opt_str_view(result)
                && u.context.history@.last().success == success && str_view(u.context.last_skill)
                == opt_str_view(skill) && r is Some && r.unwrap().id == t.id
                && r.unwrap().context.history@.len() == t.context.history@.len() + 1,
    {
        let record = InteractionRecord {
            timestamp: now,
            intent: intent.to_string(),
            skill: match skill {
                Some(s) => Some(s.to_string()),
                None => None,
            },
            result: match result {
                Some(s) => Some(s.to_string()),
                None => None,
            },
            success,
        };
        if self.update_with(session_id, None, Some(record), now) {
            self.get(session_id)
        } else {
            None
        }
    }

    /// How many sessions are held.
    pub fn active_count(&self) -> (n: usize)
        ensures
            n == self.count(),
    {
        self.sessions.len()
    }

    /// Drops the id from a user's list of sessions.
    fn forget_user_session(&mut self, user_id: &str, session_id: &str)
        requires
            old(self).wf(),
        ensures
            final(self).wf(),
            final(self).sessions == old(self).sessions,
            final(self).timeout_secs == old(self).timeout_secs,
            final(self).user_session_ids(user_id@) == without(
                old(self).user_session_ids(user_id@),
                session_id@,
            ),
            forall|u: Seq<char>|
                u != user_id@ ==> #[trigger] final(self).user_session_ids(u) == old(
                    self,
                ).user_session_ids(u),
    {
        let ghost us0 = self.user_sessions@;
        match find_key(&self.user_sessions, user_id) {
            Some(j) => {
                proof {
                    lemma_lookup_at(us0, j as int);
                }
                let (key, ids) = self.user_sessions.remove(j);
                let mut kept: Vec<String> = Vec::new();
                let mut k: usize = 0;
                while k < ids.len()
                    invariant
                        k <= ids@.len(),
                        strings_view(kept@) == without(
                            strings_view(ids@).take(k as int),
                            session_id@,
                        ),
                    decreases ids.len() - k,
                {
                    let ghost before = kept@;
                    proof {
                        assert(strings_view(ids@).take(k + 1).drop_last() =~= strings_view(
                            ids@,
                        ).take(k as int));
                        assert(strings_view(ids@).take(k + 1).last() == ids@[k as int]@);
                    }
                    if !crate::text::str_eq(ids[k].as_str(), session_id) {
                        let c = ids[k].clone();
                        kept.push(c);
                        proof {
                            assert(strings_view(kept@) =~= strings_view(before).push(
                                ids@[k as int]@,
                            ));
                        }
                    } else {
                        assert(strings_view(kept@) =~= strings_view(before) + Seq::<
                            Seq<char>,
                        >::empty());
                    }
                    k = k + 1;
                }
                proof {
                    assert(strings_view(ids@).take(ids@.len() as int) =~= strings_view(ids@));
                }
                let ghost e = kept;
                self.user_sessions.insert(j, (key, kept));
                proof {
                    assert(self.user_sessions@ =~= us0.update(j as int, (us0[j as int].0, e)));
                    lemma_lookup_update(us0, j as int, e);
                }
            },
            None => {
                assert(without(Seq::<Seq<char>>::empty(), session_id@) =~= Seq::<
                    Seq<char>,
                >::empty());
            },
        }
    }

    /// Removes the sessions idle longer than the timeout at `now`; how many were removed.
    pub fn cleanup_expired(&mut self, now: i64) -> (removed: usize)
        requires
            old(self).wf(),
        ensures
            final(self).wf(),
            final(self).timeout() == old(self).timeout(),
            forall|id: Seq<char>| #[trigger]
                final(self).session(id) == (match old(self).session(id) {
                    Some(t) => if age_secs(now, t.last_activity) > old(self).timeout() {
                        None
                    } else {
                        Some(t)
                    },
                    None => None,
                }),
            final(self).count() + removed == old(self).count(),
    {
        let ghost old_s = self.sessions@;
        let ghost t = self.timeout_secs;
        let mut removed: usize = 0;
        let mut i: usize = 0;
        let n = self.sessions.len();
        while i < self.sessions.len()
            invariant
                self.wf(),
                old_s.len() == n,
                self.timeout_secs == t,
                i <= self.sessions@.len(),
                forall|j: int|
                    0 <= j < i ==> age_secs(now, (#[trigger] self.sessions@[j]).1.last_activity) <= t,
                forall|id: Seq<char>| #[trigger]
                    lookup(self.sessions@, id) is Some ==> lookup(self.sessions@, id) == lookup(
                        old_s,
                        id,
                    ),
                forall|id: Seq<char>|
                    #![trigger lookup(old_s, id)]
                    (lookup(old_s, id) is Some && age_secs(now, lookup(old_s, id).unwrap().last_activity)
                        <= t) ==> lookup(self.sessions@, id) == lookup(old_s, id),
                removed + self.sessions@.len() == old_s.len(),
            decreases self.sessions@.len() - i,
        {
            let ghost cur = self.sessions@;
            proof {
                lemma_lookup_at(cur, i as int);
            }
            if age(now, self.sessions[i].1.last_activity) > self.timeout_secs {
                proof {
                    lemma_lookup_remove(cur, i as int);
                }
                let (key, session) = self.sessions.remove(i);
                self.forget_user_session(session.user_id.as_str(), key.as_str());
                removed = removed + 1;
                assert forall|j: int| 0 <= j < i implies age_secs(
                    now,
                    (#[trigger] self.sessions@[j]).1.last_activity,
                ) <= t by {
                    assert(self.sessions@[j] == cur[j]);
                }
            } else {
                i = i + 1;
            }
        }
        assert forall|id: Seq<char>| #[trigger]
            lookup(self.sessions@, id) == (match lookup(old_s, id) {
                Some(x) => if age_secs(now, x.last_activity) > t {
                    None
                } else {
                    Some(x)
                },
                None => None,
            }) by {
            if lookup(self.sessions@, id) is Some {
                let p = crate::keyed::key_pos(self.sessions@, id);
                assert(self.sessions@[p].0@ == id);
                lemma_lookup_at(self.sessions@, p);
            }
        }
        removed
    }
}

impl Default for SessionManager {
    /// An hour of idleness ends a session.
    fn default() -> (m: SessionManager)
        ensures
            m.wf(),
            m.timeout() == 3600,
            m.count() == 0,
    {
        SessionManager::new(3600)
    }
}

/// A session is usable at the instant it was created or last active: an active session whose
/// last activity is `now` is valid at `now`, whatever the timeout.
pub proof fn fresh_session_is_valid(s: Session, now: i64, timeout: u64)
    requires
        s.state == SessionState::Active,
        s.last_activity == now,
    ensures
        session_valid(s, now, timeout),
{
    assert(age_secs(now, now) == 0);
}

} // verus!
