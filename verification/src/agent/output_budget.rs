//! Tool output budget: adaptive truncation for large tool results.
//!
//! Three tiers:
//! - small outputs are kept whole;
//! - medium outputs are cut to a head and a tail around a marker (30 % head, 70 % tail, since
//!   error messages and recent log lines sit at the end);
//! - large outputs are stored in full by the caller and replaced by a preview that names the
//!   stored file.

use crate::text::{
    all_ascii, byte_len, decimal, extend_decimal, extend_str, from_chars, last_chars_str,
    lemma_all_ascii_concat, lemma_decimal_ascii, lemma_utf8_len_ascii, prefix_chars, slice_chars,
    ends_with, starts_with, suffix_chars, take_chars_str, to_chars, utf8_len,
};
use vstd::prelude::*;

verus! {

pub const TIER1_THRESHOLD: usize = 2_000;

pub const TIER2_THRESHOLD: usize = 16_384;

pub const PREVIEW_HEAD_CHARS: usize = 1_000;

pub const PREVIEW_TAIL_CHARS: usize = 500;

/// Budget configuration derived from the model's context window.
#[derive(Debug, Clone)]
pub struct OutputBudget {
    pub max_single_result_chars: usize,
    pub max_total_chars: usize,
    /// Directory where oversized outputs are stored.
    pub temp_dir: String,
}

/// `floor(x * 3 / 10)`: thirty percent, rounded down.
pub open spec fn thirty_percent(x: nat) -> nat {
    (x * 3) / 10
}

/// `floor(x * 6 / 10)`: sixty percent, rounded down.
pub open spec fn sixty_percent(x: nat) -> nat {
    (x * 6) / 10
}

fn percent_of(x: usize, p: usize) -> (r: usize)
    requires
        p <= 10,
    ensures
        r == (x * p) / 10,
        r <= x,
{
    assert(x / 10 * p <= x / 10 * 10) by (nonlinear_arith)
        requires
            p <= 10,
    ;
    assert((x % 10) * p <= 9 * 10) by (nonlinear_arith)
        requires
            p <= 10,
            x % 10 < 10,
    ;
    assert(x / 10 * 10 + x % 10 == x) by (nonlinear_arith);
    assert((x % 10) * p / 10 <= x % 10) by (nonlinear_arith)
        requires
            p <= 10,
    ;
    let r = x / 10 * p + (x % 10) * p / 10;
    assert(r == (x * p) / 10) by (nonlinear_arith)
        requires
            r == x / 10 * p + (x % 10) * p / 10,
            p <= 10,
    ;
    r
}

impl OutputBudget {
    /// A single tool result gets 30 % of the window (at four characters per token), all results
    /// together 60 %.
    pub fn from_context_window(context_tokens: usize, temp_dir: &str) -> (b: OutputBudget)
        requires
            context_tokens * 4 <= usize::MAX,
        ensures
            b.max_single_result_chars == thirty_percent(context_tokens as nat * 4),
            b.max_total_chars == sixty_percent(context_tokens as nat * 4),
            b.temp_dir@ == temp_dir@,
    {
        let chars_estimate = context_tokens * 4;
        OutputBudget {
            max_single_result_chars: percent_of(chars_estimate, 3),
            max_total_chars: percent_of(chars_estimate, 6),
            temp_dir: temp_dir.to_string(),
        }
    }

    /// The default budget: one result up to the medium threshold, four of them in total.
    pub fn default_budget(temp_dir: &str) -> (b: OutputBudget)
        ensures
            b.max_single_result_chars == TIER2_THRESHOLD,
            b.max_total_chars == TIER2_THRESHOLD * 4,
            b.temp_dir@ == temp_dir@,
    {
        OutputBudget {
            max_single_result_chars: TIER2_THRESHOLD,
            max_total_chars: TIER2_THRESHOLD * 4,
            temp_dir: temp_dir.to_string(),
        }
    }
}

/// Result of truncation.
#[derive(Debug, Clone)]
pub struct TruncatedOutput {
    pub content: String,
    pub original_len: usize,
    pub was_truncated: bool,
    /// Where the full output was stored, for the large tier.
    pub saved_path: Option<String>,
}

/// Which of the three tiers an output of `len` bytes falls in under a single-result cap.
#[derive(Debug, Clone, Copy, PartialEq, Eq, Structural)]
pub enum OutputTier {
    Inline,
    HeadTail,
    Spill,
}

pub open spec fn min_nat(a: nat, b: nat) -> nat {
    if a <= b {
        a
    } else {
        b
    }
}

pub open spec fn max_nat(a: nat, b: nat) -> nat {
    if a <= b {
        b
    } else {
        a
    }
}

pub open spec fn spec_tier(len: nat, cap: nat) -> OutputTier {
    if len <= min_nat(TIER1_THRESHOLD as nat, cap) {
        OutputTier::Inline
    } else if len <= cap && len <= TIER2_THRESHOLD {
        OutputTier::Inline
    } else if len <= max_nat(TIER2_THRESHOLD as nat, cap) {
        OutputTier::HeadTail
    } else {
        OutputTier::Spill
    }
}

/// The tier of a raw output under a budget.
pub fn output_tier(raw: &str, budget: &OutputBudget) -> (t: OutputTier)
    ensures
        t == spec_tier(utf8_len(raw@), budget.max_single_result_chars as nat),
{
    let len = byte_len(raw);
    let cap = budget.max_single_result_chars;
    let t1 = if TIER1_THRESHOLD <= cap {
        TIER1_THRESHOLD
    } else {
        cap
    };
    let t2 = if TIER2_THRESHOLD >= cap {
        TIER2_THRESHOLD
    } else {
        cap
    };
    if len <= t1 {
        OutputTier::Inline
    } else if len <= cap && len <= TIER2_THRESHOLD {
        OutputTier::Inline
    } else if len <= t2 {
        OutputTier::HeadTail
    } else {
        OutputTier::Spill
    }
}

/// True when the output must be stored in full before it is previewed.
pub fn needs_spill(raw: &str, budget: &OutputBudget) -> (b: bool)
    ensures
        b == (spec_tier(utf8_len(raw@), budget.max_single_result_chars as nat) == OutputTier::Spill),
{
    output_tier(raw, budget) == OutputTier::Spill
}

/// The marker put between head and tail.
pub open spec fn truncation_marker(total_bytes: nat) -> Seq<char> {
    "\n\n[... truncated, "@ + decimal(total_bytes) + " chars total ...]\n\n"@
}

/// Head and tail truncation to `max_chars`, 30 % head and 70 % tail of what the marker leaves.
pub open spec fn spec_head_tail(s: Seq<char>, max_chars: nat) -> Seq<char> {
    if s.len() <= max_chars {
        s
    } else {
        let marker = truncation_marker(utf8_len(s));
        let usable: nat = if utf8_len(marker) <= max_chars {
            (max_chars - utf8_len(marker)) as nat
        } else {
            0
        };
        let head_budget = thirty_percent(usable);
        let tail_budget = (usable - head_budget) as nat;
        prefix_chars(s, head_budget) + marker + suffix_chars(s, tail_budget)
    }
}

/// First `n` characters of `s`.
pub fn char_prefix(s: &str, n: usize) -> (r: String)
    ensures
        r@ == prefix_chars(s@, n as nat),
{
    take_chars_str(s, n)
}

/// Last `n` characters of `s`; for `n == 0` that is the empty text, so that a tail budget of
/// zero keeps no tail.
pub fn char_suffix(s: &str, n: usize) -> (r: String)
    ensures
        r@ == suffix_chars(s@, n as nat),
{
    last_chars_str(s, n)
}

/// The marker text for an output of `total_bytes` bytes.
fn truncation_marker_string(total_bytes: u64) -> (m: String)
    ensures
        m@ == truncation_marker(total_bytes as nat),
        all_ascii(m@),
{
    let mut v = to_chars("\n\n[... truncated, ");
    extend_decimal(&mut v, total_bytes);
    extend_str(&mut v, " chars total ...]\n\n");
    proof {
        reveal_strlit("\n\n[... truncated, ");
        reveal_strlit(" chars total ...]\n\n");
        lemma_decimal_ascii(total_bytes as nat);
        lemma_all_ascii_concat("\n\n[... truncated, "@, decimal(total_bytes as nat));
        lemma_all_ascii_concat(
            "\n\n[... truncated, "@ + decimal(total_bytes as nat),
            " chars total ...]\n\n"@,
        );
    }
    from_chars(v.as_slice())
}

/// Head and tail truncation with an asymmetric split (30 % head, 70 % tail).
pub fn head_tail_truncate(s: &str, max_chars: usize) -> (r: String)
    ensures
        r@ == spec_head_tail(s@, max_chars as nat),
{
    let total = s.unicode_len();
    if total <= max_chars {
        return s.to_string();
    }
    let total_bytes = byte_len(s);
    let marker = truncation_marker_string(total_bytes as u64);
    proof {
        lemma_utf8_len_ascii(marker@);
    }
    let marker_len = marker.as_str().unicode_len();
    let usable = if marker_len <= max_chars {
        max_chars - marker_len
    } else {
        0
    };
    let head_budget = percent_of(usable, 3);
    let tail_budget = usable - head_budget;
    let mut v = to_chars(take_chars_str(s, head_budget).as_str());
    extend_str(&mut v, marker.as_str());
    extend_str(&mut v, last_chars_str(s, tail_budget).as_str());
    from_chars(v.as_slice())
}

/// The note that follows a preview.
pub open spec fn path_note(saved_path: Option<Seq<char>>) -> Seq<char> {
    match saved_path {
        Some(p) => "Full output saved to: "@ + p,
        None => "Full output could not be saved."@,
    }
}

/// The preview that replaces a large output.
pub open spec fn spec_preview(raw: Seq<char>, saved_path: Option<Seq<char>>) -> Seq<char> {
    prefix_chars(raw, PREVIEW_HEAD_CHARS as nat) + "\n\n[... "@ + decimal(utf8_len(raw))
        + " chars total, showing first 1000 + last 500 ...]\n"@ + path_note(saved_path) + "\n\n"@
        + suffix_chars(raw, PREVIEW_TAIL_CHARS as nat)
}

pub open spec fn opt_view(p: Option<String>) -> Option<Seq<char>> {
    match p {
        Some(s) => Some(s@),
        None => None,
    }
}

fn path_note_string(saved_path: &Option<String>) -> (r: String)
    ensures
        r@ == path_note(opt_view(*saved_path)),
{
    match saved_path {
        Some(p) => {
            let mut v = to_chars("Full output saved to: ");
            extend_str(&mut v, p.as_str());
            from_chars(v.as_slice())
        },
        None => "Full output could not be saved.".to_string(),
    }
}

/// Builds the preview of a large output stored at `saved_path` (or not stored).
pub fn build_preview(raw: &str, saved_path: &Option<String>) -> (r: String)
    ensures
        r@ == spec_preview(raw@, opt_view(*saved_path)),
{
    let total_bytes = byte_len(raw);
    let note = path_note_string(saved_path);
    let mut v = to_chars(take_chars_str(raw, PREVIEW_HEAD_CHARS).as_str());
    extend_str(&mut v, "\n\n[... ");
    extend_decimal(&mut v, total_bytes as u64);
    extend_str(&mut v, " chars total, showing first 1000 + last 500 ...]\n");
    extend_str(&mut v, note.as_str());
    extend_str(&mut v, "\n\n");
    extend_str(&mut v, last_chars_str(raw, PREVIEW_TAIL_CHARS).as_str());
    from_chars(v.as_slice())
}

/// The content the three-tier policy keeps of `raw`; `saved_path` is where the caller stored a
/// large output in full.
pub open spec fn spec_truncated_content(
    raw: Seq<char>,
    cap: nat,
    saved_path: Option<Seq<char>>,
) -> Seq<char> {
    match spec_tier(utf8_len(raw), cap) {
        OutputTier::Inline => raw,
        OutputTier::HeadTail => spec_head_tail(raw, cap),
        OutputTier::Spill => spec_preview(raw, saved_path),
    }
}

/// Applies the three-tier truncation policy to a raw tool output. For the large tier the caller
/// first stores the output (see `needs_spill`) and passes where it went, or `None` when storing
/// failed.
pub fn truncate_tool_output(raw: &str, budget: &OutputBudget, saved_path: Option<String>) -> (r:
    TruncatedOutput)
    ensures
        r.original_len == utf8_len(raw@),
        r.content@ == spec_truncated_content(
            raw@,
            budget.max_single_result_chars as nat,
            opt_view(saved_path),
        ),
        r.was_truncated == (spec_tier(utf8_len(raw@), budget.max_single_result_chars as nat)
            != OutputTier::Inline),
        r.was_truncated == (utf8_len(raw@) > min_nat(
            budget.max_single_result_chars as nat,
            TIER2_THRESHOLD as nat,
        )),
        !r.was_truncated ==> r.content@ == raw@ && r.saved_path is None,
        r.saved_path == (if spec_tier(utf8_len(raw@), budget.max_single_result_chars as nat)
            == OutputTier::Spill {
            saved_path
        } else {
            None
        }),
{
    let original_len = byte_len(raw);
    let cap = budget.max_single_result_chars;
    match output_tier(raw, budget) {
        OutputTier::Inline => TruncatedOutput {
            content: raw.to_string(),
            original_len,
            was_truncated: false,
            saved_path: None,
        },
        OutputTier::HeadTail => {
            TruncatedOutput {
                content: head_tail_truncate(raw, cap),
                original_len,
                was_truncated: true,
                saved_path: None,
            }
        },
        OutputTier::Spill => {
            let content = build_preview(raw, &saved_path);
            TruncatedOutput { content, original_len, was_truncated: true, saved_path }
        },
    }
}

/// A large output is replaced by a preview that begins with the output's first 1000 characters
/// and ends with its last 500 (the whole output where it is shorter), whatever was stored and
/// wherever.
pub proof fn preview_keeps_head_and_tail(raw: Seq<char>, cap: nat, saved_path: Option<Seq<char>>)
    requires
        spec_tier(utf8_len(raw), cap) == OutputTier::Spill,
    ensures
        starts_with(
            spec_truncated_content(raw, cap, saved_path),
            if raw.len() <= 1000 {
                raw
            } else {
                raw.take(1000)
            },
        ),
        ends_with(
            spec_truncated_content(raw, cap, saved_path),
            if raw.len() <= 500 {
                raw
            } else {
                raw.skip(raw.len() - 500)
            },
        ),
{
    let head = prefix_chars(raw, PREVIEW_HEAD_CHARS as nat);
    let tail = suffix_chars(raw, PREVIEW_TAIL_CHARS as nat);
    let mid = "\n\n[... "@ + decimal(utf8_len(raw)) + " chars total, showing first 1000 + last 500 ...]\n"@
        + path_note(saved_path) + "\n\n"@;
    let p = spec_preview(raw, saved_path);
    assert(p =~= head + mid + tail);
    assert(p.take(head.len() as int) =~= head);
    assert(p.skip(p.len() - tail.len()) =~= tail);
}

/// Contents after each output went through the three-tier policy.
pub open spec fn first_pass(
    outputs: Seq<(String, String, bool)>,
    cap: nat,
    saved: Seq<Option<String>>,
) -> Seq<Seq<char>> {
    Seq::new(
        outputs.len(),
        |i: int| spec_truncated_content(outputs[i].1@, cap, opt_view(saved[i])),
    )
}

/// Total UTF-8 byte length of several strings.
pub open spec fn sum_utf8(s: Seq<Seq<char>>) -> nat
    decreases s.len(),
{
    if s.len() == 0 {
        0
    } else {
        sum_utf8(s.drop_last()) + utf8_len(s.last())
    }
}

/// Share of the total budget each output gets when the total is exceeded.
pub open spec fn per_output_budget(max_total: nat, n: nat) -> nat {
    if n == 0 {
        max_total
    } else {
        max_total / n
    }
}

/// How many leading characters of `s`, counted from `j` on, fit in `max_bytes` bytes of UTF-8.
pub open spec fn fitting_count(s: Seq<char>, max_bytes: nat, j: nat) -> nat
    decreases s.len() - j,
{
    if j < s.len() && utf8_len(s.take(j + 1int)) <= max_bytes {
        fitting_count(s, max_bytes, j + 1)
    } else {
        j
    }
}

/// The longest run of leading characters of `s` whose UTF-8 encoding fits in `max_bytes` bytes.
pub open spec fn fitting_prefix(s: Seq<char>, max_bytes: nat) -> Seq<char> {
    s.take(fitting_count(s, max_bytes, 0) as int)
}

/// An output cut to a share of `per` bytes: its head and tail around the marker when that fits
/// in the share, else as many leading characters as fit.
pub open spec fn cut_to_share(c: Seq<char>, per: nat) -> Seq<char> {
    if utf8_len(spec_head_tail(c, per)) <= per {
        spec_head_tail(c, per)
    } else {
        fitting_prefix(c, per)
    }
}

/// Second pass: when the total exceeds the budget, every output longer than its share is cut
/// to that share.
pub open spec fn spec_apply_total(contents: Seq<Seq<char>>, max_total: nat) -> Seq<Seq<char>> {
    if sum_utf8(contents) > max_total {
        let per = per_output_budget(max_total, contents.len());
        Seq::new(
            contents.len(),
            |i: int|
                if utf8_len(contents[i]) > per {
                    cut_to_share(contents[i], per)
                } else {
                    contents[i]
                },
        )
    } else {
        contents
    }
}

/// The contents of `(name, content, success)` outputs.
pub open spec fn contents_of(outputs: Seq<(String, String, bool)>) -> Seq<Seq<char>> {
    Seq::new(outputs.len(), |i: int| outputs[i].1@)
}

proof fn lemma_fitting_prefix_fits(s: Seq<char>, max_bytes: nat, j: nat)
    requires
        j <= s.len(),
        utf8_len(s.take(j as int)) <= max_bytes,
    ensures
        j <= fitting_count(s, max_bytes, j) <= s.len(),
        utf8_len(s.take(fitting_count(s, max_bytes, j) as int)) <= max_bytes,
    decreases s.len() - j,
{
    if j < s.len() && utf8_len(s.take(j + 1int)) <= max_bytes {
        lemma_fitting_prefix_fits(s, max_bytes, j + 1);
    }
}

/// The first characters of `s` that fit in `max_bytes` bytes.
fn fitting_prefix_str(s: &str, max_bytes: usize) -> (r: String)
    ensures
        r@ == fitting_prefix(s@, max_bytes as nat),
        utf8_len(r@) <= max_bytes,
{
    let v = to_chars(s);
    let mut i: usize = 0;
    let mut used: usize = 0;
    let mut full = false;
    assert(v@.take(0) =~= Seq::<char>::empty());
    while i < v.len() && !full
        invariant
            v@ == s@,
            i <= v@.len(),
            used == utf8_len(v@.take(i as int)),
            used <= max_bytes,
            fitting_count(v@, max_bytes as nat, 0) == fitting_count(v@, max_bytes as nat, i as nat),
            full ==> (i < v@.len() && utf8_len(v@.take(i + 1)) > max_bytes),
        decreases v@.len() - i, if full { 0int } else { 1int },
    {
        let c = v[i];
        let w: usize = if (c as u32) < 0x80 {
            1
        } else if (c as u32) < 0x800 {
            2
        } else if (c as u32) < 0x10000 {
            3
        } else {
            4
        };
        proof {
            assert(v@.take(i + 1).drop_last() =~= v@.take(i as int));
            assert(v@.take(i + 1).last() == c);
        }
        if w > max_bytes - used {
            full = true;
        } else {
            used = used + w;
            i = i + 1;
        }
    }
    proof {
        lemma_fitting_prefix_fits(v@, max_bytes as nat, 0);
    }
    let p = slice_chars(v.as_slice(), 0, i);
    assert(p@ =~= v@.take(i as int));
    from_chars(p.as_slice())
}

/// Cuts an output to a share of `per` bytes (see `cut_to_share`).
fn cut_to_share_str(c: &str, per: usize) -> (r: String)
    ensures
        r@ == cut_to_share(c@, per as nat),
        utf8_len(r@) <= per,
{
    let ht = head_tail_truncate(c, per);
    if byte_len(ht.as_str()) <= per {
        ht
    } else {
        fitting_prefix_str(c, per)
    }
}

proof fn lemma_sum_bounded(s: Seq<Seq<char>>, per: nat)
    requires
        forall|i: int| 0 <= i < s.len() ==> utf8_len(#[trigger] s[i]) <= per,
    ensures
        sum_utf8(s) <= s.len() * per,
    decreases s.len(),
{
    if s.len() > 0 {
        let t = s.drop_last();
        assert forall|i: int| 0 <= i < t.len() implies utf8_len(#[trigger] t[i]) <= per by {
            assert(t[i] == s[i]);
        }
        lemma_sum_bounded(t, per);
        assert(utf8_len(s[s.len() - 1]) <= per);
        assert(t.len() * per + per == s.len() * per) by (nonlinear_arith)
            requires
                t.len() + 1 == s.len(),
        ;
    }
}

/// The second pass keeps the outputs together within the total budget.
pub proof fn apply_total_within_budget(contents: Seq<Seq<char>>, max_total: nat)
    ensures
        sum_utf8(spec_apply_total(contents, max_total)) <= max_total,
        spec_apply_total(contents, max_total).len() == contents.len(),
{
    if sum_utf8(contents) > max_total {
        let n = contents.len();
        let per = per_output_budget(max_total, n);
        let out = spec_apply_total(contents, max_total);
        assert forall|i: int| 0 <= i < out.len() implies utf8_len(#[trigger] out[i]) <= per by {
            if utf8_len(contents[i]) > per {
                let c = contents[i];
                if utf8_len(spec_head_tail(c, per)) > per {
                    assert(c.take(0) =~= Seq::<char>::empty());
                    lemma_fitting_prefix_fits(c, per, 0);
                }
            }
        }
        lemma_sum_bounded(out, per);
        if n > 0 {
            assert((max_total / n) * n <= max_total) by (nonlinear_arith)
                requires
                    n > 0,
            ;
            assert(n * per <= max_total) by (nonlinear_arith)
                requires
                    per == max_total / n,
                    (max_total / n) * n <= max_total,
            ;
        }
    }
}

proof fn lemma_sum_utf8_push(s: Seq<Seq<char>>, x: Seq<char>)
    ensures
        sum_utf8(s.push(x)) == sum_utf8(s) + utf8_len(x),
{
    assert(s.push(x).drop_last() == s);
}

/// Applies the budget to several tool outputs `(name, content, success)` so that together they
/// stay within the total budget. `saved_paths[i]` is where the caller stored output `i` in full
/// when it needed storing.
pub fn apply_budget_to_outputs(
    outputs: &mut Vec<(String, String, bool)>,
    budget: &OutputBudget,
    saved_paths: &Vec<Option<String>>,
)
    requires
        saved_paths@.len() == old(outputs)@.len(),
    ensures
        final(outputs)@.len() == old(outputs)@.len(),
        forall|i: int|
            0 <= i < old(outputs)@.len() ==> {
                &&& (#[trigger] final(outputs)@[i]).0 == old(outputs)@[i].0
                &&& final(outputs)@[i].2 == old(outputs)@[i].2
                &&& final(outputs)@[i].1@ == spec_apply_total(
                    first_pass(old(outputs)@, budget.max_single_result_chars as nat, saved_paths@),
                    budget.max_total_chars as nat,
                )[i]
            },
        sum_utf8(contents_of(final(outputs)@)) <= budget.max_total_chars,
{
    let n = outputs.len();
    let ghost fp = first_pass(old(outputs)@, budget.max_single_result_chars as nat, saved_paths@);
    let mut contents: Vec<String> = Vec::new();
    let mut total: u128 = 0;
    let mut i: usize = 0;
    while i < n
        invariant
            n == outputs@.len(),
            outputs@ == old(outputs)@,
            saved_paths@.len() == n,
            i <= n,
            fp == first_pass(old(outputs)@, budget.max_single_result_chars as nat, saved_paths@),
            contents@.len() == i,
            forall|k: int| 0 <= k < i ==> (#[trigger] contents@[k])@ == fp[k],
            total == sum_utf8(fp.take(i as int)),
            total <= i * usize::MAX,
        decreases n - i,
    {
        let saved = match &saved_paths[i] {
            Some(p) => Some(p.clone()),
            None => None,
        };
        let t = truncate_tool_output(outputs[i].1.as_str(), budget, saved);
        assert(t.content@ == fp[i as int]);
        let len = byte_len(t.content.as_str());
        proof {
            assert(fp.take(i + 1) == fp.take(i as int).push(fp[i as int]));
            lemma_sum_utf8_push(fp.take(i as int), fp[i as int]);
            assert(total + len <= (i + 1) * usize::MAX) by (nonlinear_arith)
                requires
                    total <= i * usize::MAX,
                    len <= usize::MAX,
            ;
            assert((i + 1) * usize::MAX <= usize::MAX * usize::MAX) by (nonlinear_arith)
                requires
                    i + 1 <= usize::MAX,
            ;
        }
        total = total + len as u128;
        contents.push(t.content);
        i = i + 1;
    }
    assert(fp.take(n as int) == fp);
    let max_total = budget.max_total_chars;
    let exceeded = total > max_total as u128;
    let per = if n == 0 {
        max_total
    } else {
        max_total / n
    };
    let mut result: Vec<(String, String, bool)> = Vec::new();
    let mut j: usize = 0;
    while j < n
        invariant
            n == outputs@.len(),
            outputs@ == old(outputs)@,
            j <= n,
            contents@.len() == n,
            fp.len() == n,
            forall|k: int| 0 <= k < n ==> (#[trigger] contents@[k])@ == fp[k],
            exceeded == (sum_utf8(fp) > max_total),
            per == per_output_budget(max_total as nat, n as nat),
            result@.len() == j,
            forall|k: int|
                0 <= k < j ==> {
                    &&& (#[trigger] result@[k]).0 == old(outputs)@[k].0
                    &&& result@[k].2 == old(outputs)@[k].2
                    &&& result@[k].1@ == spec_apply_total(fp, max_total as nat)[k]
                },
        decreases n - j,
    {
        let c = &contents[j];
        let len = byte_len(c.as_str());
        let new_content = if exceeded && len > per {
            cut_to_share_str(c.as_str(), per)
        } else {
            c.clone()
        };
        let name = outputs[j].0.clone();
        let ok = outputs[j].2;
        result.push((name, new_content, ok));
        j = j + 1;
    }
    proof {
        apply_total_within_budget(fp, max_total as nat);
        assert(contents_of(result@) =~= spec_apply_total(fp, max_total as nat));
    }
    *outputs = result;
}

/// Head-and-tail truncation respects its limit: an output of at most `max_chars` characters is
/// kept whole, and whenever the truncation marker fits in `max_chars`, the result has at most
/// `max_chars` characters.
pub proof fn head_tail_respects_limit(s: Seq<char>, max_chars: nat)
    ensures
        s.len() <= max_chars ==> spec_head_tail(s, max_chars) == s,
        truncation_marker(utf8_len(s)).len() <= max_chars ==> spec_head_tail(s, max_chars).len()
            <= max_chars,
{
    let marker = truncation_marker(utf8_len(s));
    reveal_strlit("\n\n[... truncated, ");
    reveal_strlit(" chars total ...]\n\n");
    lemma_decimal_ascii(utf8_len(s));
    lemma_all_ascii_concat("\n\n[... truncated, "@, decimal(utf8_len(s)));
    lemma_all_ascii_concat("\n\n[... truncated, "@ + decimal(utf8_len(s)), " chars total ...]\n\n"@);
    lemma_utf8_len_ascii(marker);
    if s.len() > max_chars && marker.len() <= max_chars {
        let usable: nat = (max_chars - marker.len()) as nat;
        let head = thirty_percent(usable);
        assert(head <= usable) by (nonlinear_arith)
            requires
                head == (usable * 3) / 10,
        ;
        let tail = (usable - head) as nat;
        assert(prefix_chars(s, head).len() <= head);
        assert(suffix_chars(s, tail).len() <= tail);
    }
}

} // verus!
