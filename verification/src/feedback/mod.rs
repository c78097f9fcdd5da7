//! Feedback collection: user ratings of answers, and how each skill fares.
//!
//! Times are whole seconds since the Unix epoch. Rates and quality scores, which are ratios,
//! are computed by the caller from the counts kept here.

use crate::keyed::{find_key, keys_unique, lemma_lookup_at, lemma_lookup_push, lemma_lookup_update, lookup};
use crate::text::take_chars_str;
use crate::types::channel::{new_message_id, v4_uuid_text};
use vstd::prelude::*;

verus! {

/// Thumbs up or down.
#[derive(Debug, Clone, Copy, PartialEq, Eq, Structural)]
pub enum FeedbackType {
    ThumbsUp,
    ThumbsDown,
}

/// A user's rating of one answer.
#[derive(Debug)]
pub struct FeedbackRecord {
    pub id: String,
    pub session_id: String,
    pub user_id: String,
    pub message_index: u32,
    pub feedback_type: FeedbackType,
    pub original_query: String,
    pub response_preview: String,
    pub timestamp: i64,
    pub comment: Option<String>,
    pub correction: Option<String>,
}

/// Characters of an answer kept with its rating.
pub const PREVIEW_CHARS: usize = 200;

impl FeedbackRecord {
    /// A rating with a fresh identifier, the first 200 characters of the answer, and neither
    /// comment nor correction.
    pub fn new(
        session_id: &str,
        user_id: &str,
        message_index: u32,
        feedback_type: FeedbackType,
        original_query: &str,
        response_preview: &str,
        now: i64,
    ) -> (r: FeedbackRecord)
        ensures
            v4_uuid_text(r.id@),
            r.session_id@ == session_id@,
            r.user_id@ == user_id@,
            r.message_index == message_index,
            r.feedback_type == feedback_type,
            r.original_query@ == original_query@,
            r.response_preview@ == crate::text::prefix_chars(response_preview@, PREVIEW_CHARS as nat),
            r.timestamp == now,
            r.comment is None,
            r.correction is None,
    {
        FeedbackRecord {
            id: new_message_id(),
            session_id: session_id.to_string(),
            user_id: user_id.to_string(),
            message_index,
            feedback_type,
            original_query: original_query.to_string(),
            response_preview: take_chars_str(response_preview, PREVIEW_CHARS),
            timestamp: now,
            comment: None,
            correction: None,
        }
    }

    pub fn with_comment(self, comment: String) -> (r: FeedbackRecord)
        ensures
            r == (FeedbackRecord { comment: Some(comment), ..self }),
    {
        FeedbackRecord { comment: Some(comment), ..self }
    }

    pub fn with_correction(self, correction: String) -> (r: FeedbackRecord)
        ensures
            r == (FeedbackRecord { correction: Some(correction), ..self }),
    {
        FeedbackRecord { correction: Some(correction), ..self }
    }
}

fn copy_record(r: &FeedbackRecord) -> (c: FeedbackRecord)
    ensures
        c == *r,
{
    FeedbackRecord {
        id: r.id.clone(),
        session_id: r.session_id.clone(),
        user_id: r.user_id.clone(),
        message_index: r.message_index,
        feedback_type: r.feedback_type,
        original_query: r.original_query.clone(),
        response_preview: r.response_preview.clone(),
        timestamp: r.timestamp,
        comment: crate::agent::context::copy_opt_string(&r.comment),
        correction: crate::agent::context::copy_opt_string(&r.correction),
    }
}

/// How a skill has fared.
#[derive(Debug, Clone, Copy, PartialEq, Eq, Structural)]
pub struct SkillMetrics {
    pub total_uses: u32,
    pub successful_uses: u32,
    pub failed_uses: u32,
    pub thumbs_up: u32,
    pub thumbs_down: u32,
}

impl SkillMetrics {
    pub open spec fn zero() -> SkillMetrics {
        SkillMetrics { total_uses: 0, successful_uses: 0, failed_uses: 0, thumbs_up: 0, thumbs_down: 0 }
    }

    /// One more use can be counted without overflow.
    pub open spec fn has_room(self) -> bool {
        self.total_uses < u32::MAX && self.successful_uses < u32::MAX && self.failed_uses
            < u32::MAX && self.thumbs_up < u32::MAX && self.thumbs_down < u32::MAX
    }

    /// The counts after one more use.
    pub open spec fn after_use(self, success: bool, feedback: Option<FeedbackType>) -> SkillMetrics {
        SkillMetrics {
            total_uses: (self.total_uses + 1) as u32,
            successful_uses: if success {
                (self.successful_uses + 1) as u32
            } else {
                self.successful_uses
            },
            failed_uses: if success {
                self.failed_uses
            } else {
                (self.failed_uses + 1) as u32
            },
            thumbs_up: if feedback == Some(FeedbackType::ThumbsUp) {
                (self.thumbs_up + 1) as u32
            } else {
                self.thumbs_up
            },
            thumbs_down: if feedback == Some(FeedbackType::ThumbsDown) {
                (self.thumbs_down + 1) as u32
            } else {
                self.thumbs_down
            },
        }
    }
}

/// Integer feedback statistics.
#[derive(Debug, Clone, Copy)]
pub struct FeedbackCounts {
    pub total_feedback: usize,
    pub total_thumbs_up: usize,
    pub total_thumbs_down: usize,
    pub skills_with_metrics: usize,
}

/// Collects ratings per session and usage per skill.
pub struct FeedbackCollector {
    records: Vec<(String, Vec<FeedbackRecord>)>,
    skill_metrics: Vec<(String, SkillMetrics)>,
    session_messages: Vec<(String, u32)>,
}

/// The ratings of one list that are thumbs down.
pub open spec fn negatives(s: Seq<FeedbackRecord>) -> Seq<FeedbackRecord>
    decreases s.len(),
{
    if s.len() == 0 {
        Seq::empty()
    } else {
        negatives(s.drop_last()) + if s.last().feedback_type == FeedbackType::ThumbsDown {
            seq![s.last()]
        } else {
            Seq::empty()
        }
    }
}

/// The thumbs-down ratings of all sessions, sessions in the order first rated.
pub open spec fn all_negatives(r: Seq<(String, Vec<FeedbackRecord>)>) -> Seq<FeedbackRecord>
    decreases r.len(),
{
    if r.len() == 0 {
        Seq::empty()
    } else {
        all_negatives(r.drop_last()) + negatives(r.last().1@)
    }
}

/// Inserts a rating after every rating at least as recent.
pub open spec fn insert_recent(sorted: Seq<FeedbackRecord>, x: FeedbackRecord) -> Seq<FeedbackRecord>
    decreases sorted.len(),
{
    if sorted.len() == 0 {
        seq![x]
    } else if sorted.last().timestamp >= x.timestamp {
        sorted.push(x)
    } else {
        insert_recent(sorted.drop_last(), x).push(sorted.last())
    }
}

/// Ratings newest first, ratings of equal time in their first order.
pub open spec fn newest_first(s: Seq<FeedbackRecord>) -> Seq<FeedbackRecord>
    decreases s.len(),
{
    if s.len() == 0 {
        Seq::empty()
    } else {
        insert_recent(newest_first(s.drop_last()), s.last())
    }
}

proof fn lemma_insert_recent_at(s: Seq<FeedbackRecord>, x: FeedbackRecord, p: int)
    requires
        0 <= p <= s.len(),
        forall|j: int| p <= j < s.len() ==> (#[trigger] s[j]).timestamp < x.timestamp,
        p == 0 || s[p - 1].timestamp >= x.timestamp,
    ensures
        insert_recent(s, x) == s.insert(p, x),
    decreases s.len(),
{
    if s.len() == 0 {
        assert(s.insert(p, x) =~= seq![x]);
    } else if s.last().timestamp >= x.timestamp {
        assert(s.insert(p, x) =~= s.push(x));
    } else {
        lemma_insert_recent_at(s.drop_last(), x, p);
        assert(s.insert(p, x) =~= s.drop_last().insert(p, x).push(s.last()));
    }
}

/// Sums of the ratings kept per session.
pub open spec fn count_all(r: Seq<(String, Vec<FeedbackRecord>)>) -> nat
    decreases r.len(),
{
    if r.len() == 0 {
        0
    } else {
        count_all(r.drop_last()) + r.last().1@.len()
    }
}

pub open spec fn count_up(s: Seq<FeedbackRecord>) -> nat
    decreases s.len(),
{
    if s.len() == 0 {
        0
    } else {
        count_up(s.drop_last()) + if s.last().feedback_type == FeedbackType::ThumbsUp {
            1nat
        } else {
            0nat
        }
    }
}

pub open spec fn count_all_up(r: Seq<(String, Vec<FeedbackRecord>)>) -> nat
    decreases r.len(),
{
    if r.len() == 0 {
        0
    } else {
        count_all_up(r.drop_last()) + count_up(r.last().1@)
    }
}

proof fn lemma_count_up_le(s: Seq<FeedbackRecord>)
    ensures
        count_up(s) <= s.len(),
    decreases s.len(),
{
    if s.len() > 0 {
        lemma_count_up_le(s.drop_last());
    }
}

proof fn lemma_count_all_up_le(r: Seq<(String, Vec<FeedbackRecord>)>)
    ensures
        count_all_up(r) <= count_all(r),
    decreases r.len(),
{
    if r.len() > 0 {
        lemma_count_all_up_le(r.drop_last());
        lemma_count_up_le(r.last().1@);
    }
}

impl FeedbackCollector {
    pub closed spec fn wf(&self) -> bool {
        keys_unique(self.records@) && keys_unique(self.skill_metrics@) && keys_unique(
            self.session_messages@,
        )
    }

    /// The ratings given in a session, in order.
    pub closed spec fn session_records(&self, session: Seq<char>) -> Seq<FeedbackRecord> {
        match lookup(self.records@, session) {
            Some(v) => v@,
            None => Seq::empty(),
        }
    }

    /// The counts of a skill.
    pub closed spec fn metrics(&self, skill: Seq<char>) -> Option<SkillMetrics> {
        lookup(self.skill_metrics@, skill)
    }

    /// The number of messages counted in a session.
    pub closed spec fn message_count(&self, session: Seq<char>) -> u32 {
        match lookup(self.session_messages@, session) {
            Some(n) => n,
            None => 0,
        }
    }

    /// All thumbs-down ratings, sessions in the order first rated.
    pub closed spec fn negative_records(&self) -> Seq<FeedbackRecord> {
        all_negatives(self.records@)
    }

    pub closed spec fn total_records(&self) -> nat {
        count_all(self.records@)
    }

    pub closed spec fn total_up(&self) -> nat {
        count_all_up(self.records@)
    }

    pub closed spec fn skill_count(&self) -> nat {
        self.skill_metrics@.len()
    }

    pub fn new() -> (c: FeedbackCollector)
        ensures
            c.wf(),
            forall|s: Seq<char>| #[trigger] c.session_records(s).len() == 0,
            forall|s: Seq<char>| #[trigger] c.metrics(s) is None,
            forall|s: Seq<char>| #[trigger] c.message_count(s) == 0,
    {
        FeedbackCollector { records: Vec::new(), skill_metrics: Vec::new(), session_messages: Vec::new() }
    }

    /// Keeps a rating with its session's ratings.
    pub fn record_feedback(&mut self, feedback: FeedbackRecord)
        requires
            old(self).wf(),
        ensures
            final(self).wf(),
            final(self).session_records(feedback.session_id@) == old(self).session_records(
                feedback.session_id@,
            ).push(feedback),
            forall|s: Seq<char>|
                s != feedback.session_id@ ==> #[trigger] final(self).session_records(s) == old(
                    self,
                ).session_records(s),
            forall|s: Seq<char>| #[trigger] final(self).metrics(s) == old(self).metrics(s),
            forall|s: Seq<char>| #[trigger] final(self).message_count(s) == old(self).message_count(s),
    {
        let ghost r0 = self.records@;
        let ghost fb = feedback;
        match find_key(&self.records, feedback.session_id.as_str()) {
            Some(i) => {
                proof {
                    lemma_lookup_at(r0, i as int);
                }
                let (key, mut list) = self.records.remove(i);
                list.push(feedback);
                let ghost e = list;
                self.records.insert(i, (key, list));
                proof {
                    assert(self.records@ =~= r0.update(i as int, (r0[i as int].0, e)));
                    lemma_lookup_update(r0, i as int, e);
                }
            },
            None => {
                let key = feedback.session_id.clone();
                let mut list: Vec<FeedbackRecord> = Vec::new();
                list.push(feedback);
                assert(list@ =~= Seq::<FeedbackRecord>::empty().push(fb));
                let ghost e = (key, list);
                self.records.push((key, list));
                proof {
                    lemma_lookup_push(r0, e);
                }
            },
        }
    }

    /// Counts one more message in a session and returns the new count.
    pub fn increment_message_count(&mut self, session_id: &str) -> (n: u32)
        requires
            old(self).wf(),
            old(self).message_count(session_id@) < u32::MAX,
        ensures
            final(self).wf(),
            n == old(self).message_count(session_id@) + 1,
            final(self).message_count(session_id@) == n,
            forall|s: Seq<char>|
                s != session_id@ ==> #[trigger] final(self).message_count(s) == old(self).message_count(s),
            forall|s: Seq<char>| #[trigger] final(self).session_records(s) == old(self).session_records(s),
            forall|s: Seq<char>| #[trigger] final(self).metrics(s) == old(self).metrics(s),
    {
        let ghost m0 = self.session_messages@;
        match find_key(&self.session_messages, session_id) {
            Some(i) => {
                proof {
                    lemma_lookup_at(m0, i as int);
                }
                let (key, count) = self.session_messages.remove(i);
                let n = count + 1;
                self.session_messages.insert(i, (key, n));
                proof {
                    assert(self.session_messages@ =~= m0.update(i as int, (m0[i as int].0, n)));
                    lemma_lookup_update(m0, i as int, n);
                }
                n
            },
            None => {
                let key = session_id.to_string();
                let ghost e = (key, 1u32);
                self.session_messages.push((key, 1));
                proof {
                    lemma_lookup_push(m0, e);
                }
                1
            },
        }
    }

    /// The number of messages counted in a session, zero for none.
    pub fn get_message_index(&self, session_id: &str) -> (n: u32)
        requires
            self.wf(),
        ensures
            n == self.message_count(session_id@),
    {
        match find_key(&self.session_messages, session_id) {
            Some(i) => {
                proof {
                    lemma_lookup_at(self.session_messages@, i as int);
                }
                self.session_messages[i].1
            },
            None => 0,
        }
    }

    /// Counts one use of a skill, its outcome and its rating.
    pub fn record_skill_usage(&mut self, skill_name: &str, success: bool, feedback: Option<FeedbackType>)
        requires
            old(self).wf(),
            old(self).metrics(skill_name@) matches Some(m) ==> m.has_room(),
        ensures
            final(self).wf(),
            final(self).metrics(skill_name@) == Some(
                match old(self).metrics(skill_name@) {
                    Some(m) => m,
                    None => SkillMetrics::zero(),
                }.after_use(success, feedback),
            ),
            forall|s: Seq<char>|
                s != skill_name@ ==> #[trigger] final(self).metrics(s) == old(self).metrics(s),
            forall|s: Seq<char>| #[trigger] final(self).session_records(s) == old(self).session_records(s),
            forall|s: Seq<char>| #[trigger] final(self).message_count(s) == old(self).message_count(s),
    {
        let ghost k0 = self.skill_metrics@;
        let (index, m) = match find_key(&self.skill_metrics, skill_name) {
            Some(i) => {
                proof {
                    lemma_lookup_at(k0, i as int);
                }
                (Some(i), self.skill_metrics[i].1)
            },
            None => (
                None,
                SkillMetrics { total_uses: 0, successful_uses: 0, failed_uses: 0, thumbs_up: 0, thumbs_down: 0 },
            ),
        };
        let mut next = m;
        next.total_uses = m.total_uses + 1;
        if success {
            next.successful_uses = m.successful_uses + 1;
        } else {
            next.failed_uses = m.failed_uses + 1;
        }
        match feedback {
            Some(FeedbackType::ThumbsUp) => {
                next.thumbs_up = m.thumbs_up + 1;
            },
            Some(FeedbackType::ThumbsDown) => {
                next.thumbs_down = m.thumbs_down + 1;
            },
            None => {},
        }
        match index {
            Some(i) => {
                let (key, _old) = self.skill_metrics.remove(i);
                self.skill_metrics.insert(i, (key, next));
                proof {
                    assert(self.skill_metrics@ =~= k0.update(i as int, (k0[i as int].0, next)));
                    lemma_lookup_update(k0, i as int, next);
                }
            },
            None => {
                let key = skill_name.to_string();
                let ghost e = (key, next);
                self.skill_metrics.push((key, next));
                proof {
                    lemma_lookup_push(k0, e);
                }
            },
        }
    }

    /// The counts of a skill.
    pub fn get_skill_metrics(&self, skill_name: &str) -> (r: Option<SkillMetrics>)
        requires
            self.wf(),
        ensures
            r == self.metrics(skill_name@),
    {
        match find_key(&self.skill_metrics, skill_name) {
            Some(i) => {
                proof {
                    lemma_lookup_at(self.skill_metrics@, i as int);
                }
                Some(self.skill_metrics[i].1)
            },
            None => None,
        }
    }

    /// Every skill with its counts, in the order first used.
    pub fn get_all_skill_metrics(&self) -> (r: Vec<(String, SkillMetrics)>)
        requires
            self.wf(),
        ensures
            r@.len() == self.skill_count(),
            forall|i: int|
                0 <= i < r@.len() ==> self.metrics((#[trigger] r@[i]).0@) == Some(r@[i].1),
    {
        let mut r: Vec<(String, SkillMetrics)> = Vec::new();
        let mut i: usize = 0;
        while i < self.skill_metrics.len()
            invariant
                self.wf(),
                i <= self.skill_metrics@.len(),
                r@.len() == i,
                forall|j: int|
                    0 <= j < i ==> (#[trigger] r@[j]).0@ == self.skill_metrics@[j].0@ && r@[j].1
                        == self.skill_metrics@[j].1,
            decreases self.skill_metrics.len() - i,
        {
            r.push((self.skill_metrics[i].0.clone(), self.skill_metrics[i].1));
            i = i + 1;
        }
        assert forall|j: int| 0 <= j < r@.len() implies self.metrics((#[trigger] r@[j]).0@) == Some(
            r@[j].1,
        ) by {
            lemma_lookup_at(self.skill_metrics@, j);
        }
        r
    }

    /// Copies of the ratings given in a session.
    pub fn get_session_feedback(&self, session_id: &str) -> (r: Vec<FeedbackRecord>)
        requires
            self.wf(),
        ensures
            r@ == self.session_records(session_id@),
    {
        let mut out: Vec<FeedbackRecord> = Vec::new();
        match find_key(&self.records, session_id) {
            Some(i) => {
                proof {
                    lemma_lookup_at(self.records@, i as int);
                }
                let list = &self.records[i].1;
                let mut j: usize = 0;
                while j < list.len()
                    invariant
                        j <= list@.len(),
                        out@ == list@.take(j as int),
                    decreases list.len() - j,
                {
                    out.push(copy_record(&list[j]));
                    assert(out@ =~= list@.take(j + 1));
                    j = j + 1;
                }
                assert(list@.take(j as int) =~= list@);
            },
            None => {},
        }
        out
    }

    /// The most recent thumbs-down ratings, newest first, at most `limit` of them.
    pub fn get_recent_negative_feedback(&self, limit: usize) -> (r: Vec<FeedbackRecord>)
        ensures
            r@ == (if newest_first(self.negative_records()).len() > limit {
                newest_first(self.negative_records()).take(limit as int)
            } else {
                newest_first(self.negative_records())
            }),
    {
        let mut all: Vec<FeedbackRecord> = Vec::new();
        let mut i: usize = 0;
        while i < self.records.len()
            invariant
                i <= self.records@.len(),
                all@ == all_negatives(self.records@.take(i as int)),
            decreases self.records.len() - i,
        {
            assert(self.records@.take(i + 1).drop_last() =~= self.records@.take(i as int));
            let list = &self.records[i].1;
            let ghost before = all@;
            let mut j: usize = 0;
            while j < list.len()
                invariant
                    j <= list@.len(),
                    list@ == self.records@[i as int].1@,
                    all@ == before + negatives(list@.take(j as int)),
                decreases list.len() - j,
            {
                assert(list@.take(j + 1).drop_last() =~= list@.take(j as int));
                if list[j].feedback_type == FeedbackType::ThumbsDown {
                    all.push(copy_record(&list[j]));
                }
                assert(all@ =~= before + negatives(list@.take(j + 1)));
                j = j + 1;
            }
            assert(list@.take(j as int) =~= list@);
            i = i + 1;
        }
        assert(self.records@.take(i as int) =~= self.records@);
        let mut sorted: Vec<FeedbackRecord> = Vec::new();
        let mut k: usize = 0;
        while k < all.len()
            invariant
                k <= all@.len(),
                sorted@ == newest_first(all@.take(k as int)),
            decreases all.len() - k,
        {
            assert(all@.take(k + 1).drop_last() =~= all@.take(k as int));
            let x = copy_record(&all[k]);
            let mut p: usize = sorted.len();
            while p > 0 && sorted[p - 1].timestamp < x.timestamp
                invariant
                    p <= sorted@.len(),
                    forall|j: int| p <= j < sorted@.len() ==> (#[trigger] sorted@[j]).timestamp < x.timestamp,
                decreases p,
            {
                p = p - 1;
            }
            proof {
                lemma_insert_recent_at(sorted@, x, p as int);
            }
            sorted.insert(p, x);
            k = k + 1;
        }
        assert(all@.take(k as int) =~= all@);
        if sorted.len() > limit {
            sorted.truncate(limit);
        }
        sorted
    }

    /// Counts of ratings and of rated skills.
    pub fn get_stats(&self) -> (c: FeedbackCounts)
        requires
            self.total_records() <= usize::MAX,
        ensures
            c.total_feedback == self.total_records(),
            c.total_thumbs_up == self.total_up(),
            c.total_thumbs_down == self.total_records() - self.total_up(),
            c.skills_with_metrics == self.skill_count(),
    {
        let mut total: usize = 0;
        let mut up: usize = 0;
        let mut i: usize = 0;
        while i < self.records.len()
            invariant
                i <= self.records@.len(),
                count_all(self.records@) <= usize::MAX,
                total == count_all(self.records@.take(i as int)),
                up == count_all_up(self.records@.take(i as int)),
                up <= total,
            decreases self.records.len() - i,
        {
            assert(self.records@.take(i + 1).drop_last() =~= self.records@.take(i as int));
            proof {
                lemma_count_all_prefix(self.records@, i as int + 1);
            }
            let list = &self.records[i].1;
            let ghost before_up = up;
            let mut j: usize = 0;
            while j < list.len()
                invariant
                    j <= list@.len(),
                    list@ == self.records@[i as int].1@,
                    up == before_up + count_up(list@.take(j as int)),
                    count_up(list@.take(j as int)) <= j,
                    before_up <= total,
                    total + list@.len() <= count_all(self.records@),
                    count_all(self.records@) <= usize::MAX,
                decreases list.len() - j,
            {
                assert(list@.take(j + 1).drop_last() =~= list@.take(j as int));
                if list[j].feedback_type == FeedbackType::ThumbsUp {
                    up = up + 1;
                }
                proof {
                    lemma_count_up_le(list@.take(j + 1));
                }
                j = j + 1;
            }
            assert(list@.take(j as int) =~= list@);
            total = total + list.len();
            i = i + 1;
        }
        assert(self.records@.take(i as int) =~= self.records@);
        FeedbackCounts {
            total_feedback: total,
            total_thumbs_up: up,
            total_thumbs_down: total - up,
            skills_with_metrics: self.skill_metrics.len(),
        }
    }
}

proof fn lemma_count_all_prefix(r: Seq<(String, Vec<FeedbackRecord>)>, n: int)
    requires
        0 <= n <= r.len(),
    ensures
        count_all(r.take(n)) <= count_all(r),
    decreases r.len(),
{
    if n < r.len() {
        assert(r.drop_last().take(n) =~= r.take(n));
        lemma_count_all_prefix(r.drop_last(), n);
    } else {
        assert(r.take(n) =~= r);
    }
}

/// Every rating held is a thumbs up or a thumbs down: the thumbs-up count never exceeds the
/// number of ratings, so the statistics split the ratings between the two.
pub proof fn thumbs_up_within_total(c: FeedbackCollector)
    ensures
        c.total_up() <= c.total_records(),
{
    lemma_count_all_up_le(c.records@);
}

} // verus!
