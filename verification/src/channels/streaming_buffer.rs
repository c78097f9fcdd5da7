//! Streaming output buffer: accumulates tokens per message and says when an update may be
//! flushed, under a size threshold, a per-message flush interval and a rate limit.
//!
//! Time enters as milliseconds read by the caller from a monotonic clock.

use crate::keyed::{
    find_key, has_key, keys_unique, lemma_lookup_at, lemma_lookup_push, lemma_lookup_remove,
    lemma_lookup_update, lookup,
};
use crate::text::{byte_len, lemma_utf8_len_concat, push_str, utf8_len};
use vstd::prelude::*;

verus! {

/// Characters buffered before a flush is asked for.
pub const DEFAULT_BUFFER_SIZE: usize = 50;

/// Least time between two flushes of one message, in milliseconds.
pub const DEFAULT_FLUSH_TIMEOUT_MS: u64 = 500;

/// Updates allowed per rate window (the chat service's limit).
pub const MAX_UPDATES_PER_MINUTE: usize = 60;

/// Length of the rate window, in milliseconds.
pub const RATE_WINDOW_MS: u64 = 60000;

/// A pending update for one message.
#[derive(Debug)]
pub enum BufferEntry {
    /// Text waiting to be flushed.
    Text(String),
    /// An interactive card waiting to be flushed.
    Card(serde_json::Value),
}

/// What a pending update holds, as plain values.
pub enum EntryModel {
    Text(Seq<char>),
    Card(serde_json::Value),
}

impl View for BufferEntry {
    type V = EntryModel;

    open spec fn view(&self) -> EntryModel {
        match self {
            BufferEntry::Text(s) => EntryModel::Text(s@),
            BufferEntry::Card(c) => EntryModel::Card(*c),
        }
    }
}

pub open spec fn entry_opt_view(e: Option<BufferEntry>) -> Option<EntryModel> {
    match e {
        Some(x) => Some(x@),
        None => None,
    }
}

/// What is pending for a message once a text token is appended: the token starts the text,
/// or extends the text pending; a pending card stays as it is.
pub open spec fn appended(p: Option<EntryModel>, text: Seq<char>) -> Option<EntryModel> {
    match p {
        None => Some(EntryModel::Text(text)),
        Some(EntryModel::Text(s)) => Some(EntryModel::Text(s + text)),
        Some(EntryModel::Card(c)) => Some(EntryModel::Card(c)),
    }
}

/// Tokens are buffered in the order they come: appending `a` and then `b` leaves pending what
/// appending `a` followed by `b` in one token does.
pub proof fn appends_concatenate(p: Option<EntryModel>, a: Seq<char>, b: Seq<char>)
    ensures
        appended(appended(p, a), b) == appended(p, a + b),
{
    match p {
        Some(EntryModel::Text(s)) => {
            assert(s + a + b =~= s + (a + b));
        },
        _ => {},
    }
}

/// Time since `then`, never negative (a monotonic clock's `elapsed`).
pub open spec fn elapsed_ms(now: u64, then: u64) -> int {
    if now >= then {
        now - then
    } else {
        0
    }
}

/// Buffers for the messages being streamed.
pub struct StreamingBuffer {
    entries: Vec<(String, BufferEntry)>,
    last_flush: Vec<(String, u64)>,
    buffer_size: usize,
    flush_timeout_ms: u64,
    rate_limit_reset_ms: u64,
    updates_this_minute: usize,
}

impl StreamingBuffer {
    /// No key is held twice.
    pub closed spec fn wf(&self) -> bool {
        keys_unique(self.entries@) && keys_unique(self.last_flush@)
    }

    /// The update pending for a message.
    pub closed spec fn pending(&self, id: Seq<char>) -> Option<EntryModel> {
        entry_opt_view(lookup(self.entries@, id))
    }

    /// When a message was last flushed.
    pub closed spec fn flushed_at(&self, id: Seq<char>) -> Option<u64> {
        lookup(self.last_flush@, id)
    }

    pub closed spec fn size_limit(&self) -> usize {
        self.buffer_size
    }

    pub closed spec fn flush_timeout(&self) -> u64 {
        self.flush_timeout_ms
    }

    pub closed spec fn rate_reset(&self) -> u64 {
        self.rate_limit_reset_ms
    }

    pub closed spec fn updates(&self) -> usize {
        self.updates_this_minute
    }

    /// Default limits, with the rate window starting at `now_ms`.
    pub fn new(now_ms: u64) -> (b: Self)
        requires
            now_ms <= u64::MAX - RATE_WINDOW_MS,
        ensures
            b.wf(),
            forall|id: Seq<char>| #[trigger] b.pending(id) is None && b.flushed_at(id) is None,
            b.size_limit() == DEFAULT_BUFFER_SIZE,
            b.flush_timeout() == DEFAULT_FLUSH_TIMEOUT_MS,
            b.rate_reset() == now_ms + RATE_WINDOW_MS,
            b.updates() == 0,
    {
        Self::with_limits(DEFAULT_BUFFER_SIZE, DEFAULT_FLUSH_TIMEOUT_MS, now_ms)
    }

    /// Given limits, with the rate window starting at `now_ms`.
    pub fn with_limits(buffer_size: usize, flush_timeout_ms: u64, now_ms: u64) -> (b: Self)
        requires
            now_ms <= u64::MAX - RATE_WINDOW_MS,
        ensures
            b.wf(),
            forall|id: Seq<char>| #[trigger] b.pending(id) is None && b.flushed_at(id) is None,
            b.size_limit() == buffer_size,
            b.flush_timeout() == flush_timeout_ms,
            b.rate_reset() == now_ms + RATE_WINDOW_MS,
            b.updates() == 0,
    {
        StreamingBuffer {
            entries: Vec::new(),
            last_flush: Vec::new(),
            buffer_size,
            flush_timeout_ms,
            rate_limit_reset_ms: now_ms + RATE_WINDOW_MS,
            updates_this_minute: 0,
        }
    }

    /// Appends a text token to a message's buffer and says whether the buffered text has
    /// reached the size limit (in bytes). A card pending for the message is left as it is.
    pub fn append_text(&mut self, message_id: &str, text: &str) -> (flush: bool)
        requires
            old(self).wf(),
        ensures
            final(self).wf(),
            final(self).pending(message_id@) == appended(old(self).pending(message_id@), text@),
            match old(self).pending(message_id@) {
                None => flush == (utf8_len(text@) >= old(self).size_limit()),
                Some(EntryModel::Text(s)) => flush == (utf8_len(s) + utf8_len(text@) >= old(
                    self,
                ).size_limit()),
                Some(EntryModel::Card(c)) => !flush,
            },
            forall|id: Seq<char>|
                id != message_id@ ==> #[trigger] final(self).pending(id) == old(self).pending(
                    id,
                ),
            forall|id: Seq<char>| #[trigger] final(self).flushed_at(id) == old(self).flushed_at(id),
            final(self).size_limit() == old(self).size_limit(),
            final(self).flush_timeout() == old(self).flush_timeout(),
            final(self).rate_reset() == old(self).rate_reset(),
            final(self).updates() == old(self).updates(),
    {
        match find_key(&self.entries, message_id) {
            Some(i) => {
                let ghost s0 = self.entries@;
                proof {
                    lemma_lookup_at(s0, i as int);
                }
                let (key, entry) = self.entries.remove(i);
                match entry {
                    BufferEntry::Text(mut s) => {
                        let ghost before = s@;
                        push_str(&mut s, text);
                        let total = byte_len(s.as_str());
                        proof {
                            lemma_utf8_len_concat(before, text@);
                        }
                        let ghost e = BufferEntry::Text(s);
                        self.entries.insert(i, (key, BufferEntry::Text(s)));
                        proof {
                            assert(self.entries@ =~= s0.update(i as int, (s0[i as int].0, e)));
                            lemma_lookup_update(s0, i as int, e);
                        }
                        total >= self.buffer_size
                    },
                    BufferEntry::Card(c) => {
                        self.entries.insert(i, (key, BufferEntry::Card(c)));
                        proof {
                            assert(self.entries@ =~= s0);
                        }
                        false
                    },
                }
            },
            None => {
                let ghost s0 = self.entries@;
                let mut s = String::new();
                push_str(&mut s, text);
                assert(s@ =~= text@);
                let total = byte_len(s.as_str());
                let key = message_id.to_string();
                let ghost e = (key, BufferEntry::Text(s));
                self.entries.push((key, BufferEntry::Text(s)));
                proof {
                    lemma_lookup_push(s0, e);
                }
                total >= self.buffer_size
            },
        }
    }

    /// Sets the card for a message, replacing what was pending.
    pub fn set_card(&mut self, message_id: &str, card: serde_json::Value)
        requires
            old(self).wf(),
        ensures
            final(self).wf(),
            final(self).pending(message_id@) == Some(EntryModel::Card(card)),
            forall|id: Seq<char>|
                id != message_id@ ==> #[trigger] final(self).pending(id) == old(self).pending(
                    id,
                ),
            forall|id: Seq<char>| #[trigger] final(self).flushed_at(id) == old(self).flushed_at(id),
            final(self).size_limit() == old(self).size_limit(),
            final(self).flush_timeout() == old(self).flush_timeout(),
            final(self).rate_reset() == old(self).rate_reset(),
            final(self).updates() == old(self).updates(),
    {
        let ghost s0 = self.entries@;
        let ghost c = card;
        match find_key(&self.entries, message_id) {
            Some(i) => {
                let (key, _old_entry) = self.entries.remove(i);
                let ghost e = BufferEntry::Card(c);
                self.entries.insert(i, (key, BufferEntry::Card(card)));
                proof {
                    assert(self.entries@ =~= s0.update(i as int, (s0[i as int].0, e)));
                    lemma_lookup_update(s0, i as int, e);
                }
            },
            None => {
                let key = message_id.to_string();
                let ghost e = (key, BufferEntry::Card(c));
                self.entries.push((key, BufferEntry::Card(card)));
                proof {
                    lemma_lookup_push(s0, e);
                }
            },
        }
    }

    /// Removes and returns what is pending for a message, whatever the limits say.
    pub fn force_take_pending(&mut self, message_id: &str) -> (r: Option<BufferEntry>)
        requires
            old(self).wf(),
        ensures
            final(self).wf(),
            entry_opt_view(r) == old(self).pending(message_id@),
            final(self).pending(message_id@) is None,
            forall|id: Seq<char>|
                id != message_id@ ==> #[trigger] final(self).pending(id) == old(self).pending(
                    id,
                ),
            forall|id: Seq<char>| #[trigger] final(self).flushed_at(id) == old(self).flushed_at(id),
            final(self).size_limit() == old(self).size_limit(),
            final(self).flush_timeout() == old(self).flush_timeout(),
            final(self).rate_reset() == old(self).rate_reset(),
            final(self).updates() == old(self).updates(),
    {
        let ghost s0 = self.entries@;
        match find_key(&self.entries, message_id) {
            Some(i) => {
                proof {
                    lemma_lookup_at(s0, i as int);
                    lemma_lookup_remove(s0, i as int);
                }
                let (_key, entry) = self.entries.remove(i);
                Some(entry)
            },
            None => None,
        }
    }

    /// Updates counted in the current window once `now_ms` is reached: the count restarts when
    /// the window has run out.
    pub open spec fn updates_at(&self, now_ms: u64) -> int {
        if now_ms > self.rate_reset() {
            0
        } else {
            self.updates() as int
        }
    }

    /// A message may be flushed again: never flushed, or the flush interval has passed.
    pub open spec fn flush_due(&self, id: Seq<char>, now_ms: u64) -> bool {
        match self.flushed_at(id) {
            None => true,
            Some(t) => elapsed_ms(now_ms, t) >= self.flush_timeout(),
        }
    }

    /// Takes what is pending for a message when an update may be sent now.
    ///
    /// Every call within the rate limit counts as an update and restarts the rate window, even
    /// when nothing is pending or the message was flushed too recently; a call over the limit
    /// changes nothing but the count reset of an expired window.
    pub fn take_pending(&mut self, message_id: &str, now_ms: u64) -> (r: Option<BufferEntry>)
        requires
            old(self).wf(),
            now_ms <= u64::MAX - RATE_WINDOW_MS,
        ensures
            final(self).wf(),
            final(self).size_limit() == old(self).size_limit(),
            final(self).flush_timeout() == old(self).flush_timeout(),
            old(self).updates_at(now_ms) >= MAX_UPDATES_PER_MINUTE ==> {
                &&& r is None
                &&& final(self).updates() == old(self).updates_at(now_ms)
                &&& final(self).rate_reset() == old(self).rate_reset()
                &&& forall|id: Seq<char>| #[trigger]
                    final(self).pending(id) == old(self).pending(id)
                &&& forall|id: Seq<char>| #[trigger]
                    final(self).flushed_at(id) == old(self).flushed_at(id)
            },
            old(self).updates_at(now_ms) < MAX_UPDATES_PER_MINUTE ==> {
                &&& final(self).updates() == old(self).updates_at(now_ms) + 1
                &&& final(self).rate_reset() == now_ms + RATE_WINDOW_MS
            },
            (old(self).updates_at(now_ms) < MAX_UPDATES_PER_MINUTE && old(self).pending(
                message_id@,
            ) is Some && old(self).flush_due(message_id@, now_ms)) ==> {
                &&& entry_opt_view(r) == old(self).pending(message_id@)
                &&& final(self).pending(message_id@) is None
                &&& final(self).flushed_at(message_id@) == Some(now_ms)
                &&& forall|id: Seq<char>|
                    id != message_id@ ==> #[trigger] final(self).pending(id) == old(self).pending(
                        id,
                    )
                &&& forall|id: Seq<char>|
                    id != message_id@ ==> #[trigger] final(self).flushed_at(id) == old(
                        self,
                    ).flushed_at(id)
            },
            (old(self).updates_at(now_ms) < MAX_UPDATES_PER_MINUTE && !(old(self).pending(
                message_id@,
            ) is Some && old(self).flush_due(message_id@, now_ms))) ==> {
                &&& r is None
                &&& forall|id: Seq<char>| #[trigger]
                    final(self).pending(id) == old(self).pending(id)
                &&& forall|id: Seq<char>| #[trigger]
                    final(self).flushed_at(id) == old(self).flushed_at(id)
            },
    {
        if now_ms > self.rate_limit_reset_ms {
            self.updates_this_minute = 0;
        }
        if self.updates_this_minute >= MAX_UPDATES_PER_MINUTE {
            return None;
        }
        self.updates_this_minute = self.updates_this_minute + 1;
        self.rate_limit_reset_ms = now_ms + RATE_WINDOW_MS;
        let i = match find_key(&self.entries, message_id) {
            Some(i) => i,
            None => {
                return None;
            },
        };
        let ghost s0 = self.entries@;
        proof {
            lemma_lookup_at(s0, i as int);
        }
        let ghost f0 = self.last_flush@;
        let due = match find_key(&self.last_flush, message_id) {
            Some(j) => {
                proof {
                    lemma_lookup_at(f0, j as int);
                }
                let then = self.last_flush[j].1;
                let elapsed = if now_ms >= then {
                    now_ms - then
                } else {
                    0
                };
                if elapsed >= self.flush_timeout_ms {
                    let (key, _t) = self.last_flush.remove(j);
                    self.last_flush.insert(j, (key, now_ms));
                    proof {
                        assert(self.last_flush@ =~= f0.update(j as int, (f0[j as int].0, now_ms)));
                        lemma_lookup_update(f0, j as int, now_ms);
                    }
                    true
                } else {
                    false
                }
            },
            None => {
                let key = message_id.to_string();
                let ghost e = (key, now_ms);
                self.last_flush.push((key, now_ms));
                proof {
                    lemma_lookup_push(f0, e);
                }
                true
            },
        };
        if !due {
            return None;
        }
        proof {
            lemma_lookup_remove(s0, i as int);
        }
        let (_key, entry) = self.entries.remove(i);
        Some(entry)
    }

    /// Bytes of text buffered for a message; zero for none or for a card.
    pub fn buffered_len(&self, message_id: &str) -> (n: usize)
        requires
            self.wf(),
        ensures
            n == (match self.pending(message_id@) {
                Some(EntryModel::Text(s)) => utf8_len(s),
                _ => 0,
            }),
    {
        match find_key(&self.entries, message_id) {
            Some(i) => {
                proof {
                    lemma_lookup_at(self.entries@, i as int);
                }
                match &self.entries[i].1 {
                    BufferEntry::Text(s) => byte_len(s.as_str()),
                    BufferEntry::Card(_) => 0,
                }
            },
            None => 0,
        }
    }
}

} // verus!
