//! Context window management.
//!
//! Estimates token usage and, when the conversation approaches the context limit, decides which
//! messages are summarized: the system prompt and the most recent messages are kept verbatim and
//! everything between them is replaced by one `<context_summary>` system message.

use crate::text::{
    byte_len, ends_with, extend_str, from_chars, prefix_chars, starts_with, take_chars_str, to_chars,
    utf8_len,
};
use vstd::prelude::*;

verus! {

pub const CHARS_PER_TOKEN_ESTIMATE: usize = 4;

pub const DEFAULT_MAX_CONTEXT_TOKENS: usize = 100_000;

pub const KEEP_RECENT_MESSAGES: usize = 6;

/// Role of a chat message.
#[derive(Debug, Clone, Copy, PartialEq, Eq, Structural)]
pub enum MessageRole {
    System,
    User,
    Assistant,
    Tool,
}

impl MessageRole {
    pub open spec fn spec_name(self) -> Seq<char> {
        match self {
            MessageRole::System => "system"@,
            MessageRole::User => "user"@,
            MessageRole::Assistant => "assistant"@,
            MessageRole::Tool => "tool"@,
        }
    }

    /// Lower-case role name.
    pub fn as_str(&self) -> (r: &'static str)
        ensures
            r@ == self.spec_name(),
    {
        match self {
            MessageRole::System => "system",
            MessageRole::User => "user",
            MessageRole::Assistant => "assistant",
            MessageRole::Tool => "tool",
        }
    }
}

/// One message of a chat conversation.
#[derive(Debug, Clone)]
pub struct ChatMessage {
    pub role: MessageRole,
    pub content: String,
    pub name: Option<String>,
    pub tool_call_id: Option<String>,
}

impl ChatMessage {
    pub fn new(role: MessageRole, content: &str) -> (m: ChatMessage)
        ensures
            m.role == role,
            m.content@ == content@,
            m.name is None,
            m.tool_call_id is None,
    {
        ChatMessage { role, content: content.to_string(), name: None, tool_call_id: None }
    }

    pub fn system(content: &str) -> (m: ChatMessage)
        ensures
            m.role == MessageRole::System,
            m.content@ == content@,
            m.name is None,
            m.tool_call_id is None,
    {
        ChatMessage::new(MessageRole::System, content)
    }

    pub fn user(content: &str) -> (m: ChatMessage)
        ensures
            m.role == MessageRole::User,
            m.content@ == content@,
            m.name is None,
            m.tool_call_id is None,
    {
        ChatMessage::new(MessageRole::User, content)
    }

    pub fn assistant(content: &str) -> (m: ChatMessage)
        ensures
            m.role == MessageRole::Assistant,
            m.content@ == content@,
            m.name is None,
            m.tool_call_id is None,
    {
        ChatMessage::new(MessageRole::Assistant, content)
    }
}

/// An owned copy of an optional string.
pub fn copy_opt_string(s: &Option<String>) -> (r: Option<String>)
    ensures
        r == *s,
{
    match s {
        Some(t) => Some(t.clone()),
        None => None,
    }
}

/// An owned copy of a message.
pub fn copy_message(m: &ChatMessage) -> (r: ChatMessage)
    ensures
        r == *m,
{
    ChatMessage {
        role: m.role,
        content: m.content.clone(),
        name: copy_opt_string(&m.name),
        tool_call_id: copy_opt_string(&m.tool_call_id),
    }
}

/// Total UTF-8 byte length of the contents of `msgs`.
pub open spec fn total_content_bytes(msgs: Seq<ChatMessage>) -> nat
    decreases msgs.len(),
{
    if msgs.len() == 0 {
        0
    } else {
        total_content_bytes(msgs.drop_last()) + utf8_len(msgs.last().content@)
    }
}

/// Token estimate: content bytes divided by four.
pub open spec fn spec_estimate_tokens(msgs: Seq<ChatMessage>) -> nat {
    total_content_bytes(msgs) / (CHARS_PER_TOKEN_ESTIMATE as nat)
}

/// Three quarters of `max`, rounded down.
pub open spec fn compaction_threshold(max: nat) -> nat {
    (max * 3) / 4
}

/// Routes for preemptive context management.
#[derive(Debug, Clone, Copy, PartialEq, Eq, Structural)]
pub enum CompactionRoute {
    Fits,
    CompactOnly,
    CompactAndTruncateTools,
}

/// The route for an estimate against a limit.
pub open spec fn spec_route(estimated: nat, max: nat) -> CompactionRoute {
    if estimated <= compaction_threshold(max) {
        CompactionRoute::Fits
    } else if estimated <= max {
        CompactionRoute::CompactOnly
    } else {
        CompactionRoute::CompactAndTruncateTools
    }
}

/// What the context utilization log line reports.
#[derive(Debug, Clone, Copy, PartialEq, Eq, Structural)]
pub struct ContextUtilization {
    pub estimated_tokens: usize,
    pub max_tokens: usize,
    pub message_count: usize,
}

/// Messages of a conversation may be summarized between `start` (after a leading system prompt)
/// and `keep_from` (where the kept recent messages begin).
pub open spec fn spec_compaction_window(max: nat, msgs: Seq<ChatMessage>) -> Option<(nat, nat)> {
    let start: nat = if msgs.len() > 0 && msgs[0].role == MessageRole::System {
        1
    } else {
        0
    };
    let keep_from: nat = if msgs.len() >= KEEP_RECENT_MESSAGES {
        (msgs.len() - KEEP_RECENT_MESSAGES) as nat
    } else {
        0
    };
    if spec_route(spec_estimate_tokens(msgs), max) == CompactionRoute::Fits {
        None
    } else if msgs.len() <= KEEP_RECENT_MESSAGES + 1 {
        None
    } else if keep_from <= start {
        None
    } else {
        Some((start, keep_from))
    }
}

/// Manages the context window.
#[derive(Debug, Clone, Copy)]
pub struct ContextManager {
    pub max_context_tokens: usize,
}

impl ContextManager {
    pub fn new() -> (c: ContextManager)
        ensures
            c.max_context_tokens == DEFAULT_MAX_CONTEXT_TOKENS,
    {
        ContextManager { max_context_tokens: DEFAULT_MAX_CONTEXT_TOKENS }
    }

    pub fn with_max_tokens(self, max_tokens: usize) -> (c: ContextManager)
        ensures
            c.max_context_tokens == max_tokens,
    {
        ContextManager { max_context_tokens: max_tokens }
    }

    /// Rough token count estimate: total content bytes / 4.
    pub fn estimate_tokens(messages: &[ChatMessage]) -> (n: usize)
        requires
            total_content_bytes(messages@) <= usize::MAX,
        ensures
            n == spec_estimate_tokens(messages@),
    {
        let mut total: usize = 0;
        let mut i: usize = 0;
        while i < messages.len()
            invariant
                i <= messages@.len(),
                total == total_content_bytes(messages@.take(i as int)),
                total_content_bytes(messages@) <= usize::MAX,
            decreases messages.len() - i,
        {
            proof {
                assert(messages@.take(i + 1).drop_last() == messages@.take(i as int));
                lemma_total_content_bytes_prefix(messages@, i + 1);
            }
            let b = byte_len(messages[i].content.as_str());
            total = total + b;
            i = i + 1;
        }
        assert(messages@.take(messages@.len() as int) == messages@);
        total / CHARS_PER_TOKEN_ESTIMATE
    }

    /// Decide what to do before the next model call.
    pub fn preemptive_check(&self, messages: &[ChatMessage]) -> (r: CompactionRoute)
        requires
            total_content_bytes(messages@) <= usize::MAX,
        ensures
            r == spec_route(spec_estimate_tokens(messages@), self.max_context_tokens as nat),
    {
        let estimated = Self::estimate_tokens(messages);
        let max = self.max_context_tokens;
        let threshold = max / 4 * 3 + (max % 4) * 3 / 4;
        assert(threshold == compaction_threshold(max as nat)) by (nonlinear_arith)
            requires
                threshold == max / 4 * 3 + (max % 4) * 3 / 4,
        ;
        if estimated <= threshold {
            CompactionRoute::Fits
        } else if estimated <= max {
            CompactionRoute::CompactOnly
        } else {
            CompactionRoute::CompactAndTruncateTools
        }
    }

    /// The figures that the utilization log line reports.
    pub fn log_utilization(&self, messages: &[ChatMessage]) -> (u: ContextUtilization)
        requires
            total_content_bytes(messages@) <= usize::MAX,
        ensures
            u.estimated_tokens == spec_estimate_tokens(messages@),
            u.max_tokens == self.max_context_tokens,
            u.message_count == messages@.len(),
    {
        ContextUtilization {
            estimated_tokens: Self::estimate_tokens(messages),
            max_tokens: self.max_context_tokens,
            message_count: messages.len(),
        }
    }

    /// The range `[start, keep_from)` of messages to summarize, or `None` when nothing is
    /// compacted.
    pub fn compaction_window(&self, messages: &[ChatMessage]) -> (r: Option<(usize, usize)>)
        requires
            total_content_bytes(messages@) <= usize::MAX,
        ensures
            r matches Some((s, k)) ==> spec_compaction_window(
                self.max_context_tokens as nat,
                messages@,
            ) == Some((s as nat, k as nat)),
            r is None ==> spec_compaction_window(self.max_context_tokens as nat, messages@) is None,
    {
        let route = self.preemptive_check(messages);
        if route == CompactionRoute::Fits {
            return None;
        }
        let n = messages.len();
        if n <= KEEP_RECENT_MESSAGES + 1 {
            return None;
        }
        let start: usize = if n > 0 && messages[0].role == MessageRole::System {
            1
        } else {
            0
        };
        let keep_from = n - KEEP_RECENT_MESSAGES;
        if keep_from <= start {
            return None;
        }
        Some((start, keep_from))
    }
}

proof fn lemma_total_content_bytes_prefix(msgs: Seq<ChatMessage>, i: int)
    requires
        0 <= i <= msgs.len(),
    ensures
        total_content_bytes(msgs.take(i)) <= total_content_bytes(msgs),
    decreases msgs.len() - i,
{
    if i < msgs.len() {
        lemma_total_content_bytes_prefix(msgs, i + 1);
        assert(msgs.take(i + 1).drop_last() == msgs.take(i));
    } else {
        assert(msgs.take(i) == msgs);
    }
}

/// A message shortened for the summarization prompt: more than 2000 bytes keeps its first 500
/// characters followed by `... [truncated]`.
pub open spec fn spec_truncate_for_summary(content: Seq<char>) -> Seq<char> {
    if utf8_len(content) <= 2000 {
        content
    } else {
        prefix_chars(content, 500) + "... [truncated]"@
    }
}

/// Shortens one message for the summarization prompt.
pub fn truncate_for_summary(content: &str) -> (r: String)
    ensures
        r@ == spec_truncate_for_summary(content@),
{
    if byte_len(content) <= 2000 {
        return content.to_string();
    }
    let mut v = to_chars(take_chars_str(content, 500).as_str());
    extend_str(&mut v, "... [truncated]");
    from_chars(v.as_slice())
}

/// The summary used when the model cannot summarize: more than 2000 bytes keeps the first 2000
/// characters and a truncation note.
pub open spec fn spec_simple_truncate_summary(history: Seq<char>) -> Seq<char> {
    if utf8_len(history) <= 2000 {
        history
    } else {
        prefix_chars(history, 2000) + "...\n[Earlier conversation truncated due to context limits]"@
    }
}

/// The fallback summary of a conversation history.
pub fn simple_truncate_summary(history: &str) -> (r: String)
    ensures
        r@ == spec_simple_truncate_summary(history@),
{
    if byte_len(history) <= 2000 {
        return history.to_string();
    }
    let mut v = to_chars(take_chars_str(history, 2000).as_str());
    extend_str(&mut v, "...\n[Earlier conversation truncated due to context limits]");
    from_chars(v.as_slice())
}

/// The summary that replaces the compacted messages, given the answer to the one summary
/// request: the model's text, or the fallback summary of the history when the request failed.
pub open spec fn spec_chosen_summary(reply: Result<Seq<char>, Seq<char>>, history: Seq<char>) -> Seq<char> {
    match reply {
        Ok(text) => text,
        Err(_) => spec_simple_truncate_summary(history),
    }
}

/// Chooses the summary from the answer to the summary request (`Err` carries why it failed).
pub fn chosen_summary(reply: Result<String, String>, history: &str) -> (r: String)
    ensures
        r@ == spec_chosen_summary(
            match reply {
                Ok(t) => Ok(t@),
                Err(e) => Err(e@),
            },
            history@,
        ),
{
    match reply {
        Ok(text) => text,
        Err(_) => simple_truncate_summary(history),
    }
}

/// One line of the summarization prompt: `[role]: content`.
pub open spec fn history_line(m: ChatMessage) -> Seq<char> {
    "["@ + m.role.spec_name() + "]: "@ + spec_truncate_for_summary(m.content@)
}

/// The summarization prompt's history: one line per message, separated by a blank line.
pub open spec fn spec_history_text(msgs: Seq<ChatMessage>) -> Seq<char>
    decreases msgs.len(),
{
    if msgs.len() == 0 {
        Seq::empty()
    } else if msgs.len() == 1 {
        history_line(msgs[0])
    } else {
        spec_history_text(msgs.drop_last()) + "\n\n"@ + history_line(msgs.last())
    }
}

/// Builds the history text of `messages[start..end]`.
pub fn history_text(messages: &[ChatMessage], start: usize, end: usize) -> (r: String)
    requires
        start <= end <= messages@.len(),
    ensures
        r@ == spec_history_text(messages@.subrange(start as int, end as int)),
{
    let mut v: Vec<char> = Vec::new();
    let mut i = start;
    while i < end
        invariant
            start <= i <= end <= messages@.len(),
            v@ == spec_history_text(messages@.subrange(start as int, i as int)),
        decreases end - i,
    {
        let ghost before = v@;
        let m = &messages[i];
        if i > start {
            extend_str(&mut v, "\n\n");
        }
        extend_str(&mut v, "[");
        extend_str(&mut v, m.role.as_str());
        extend_str(&mut v, "]: ");
        let t = truncate_for_summary(m.content.as_str());
        extend_str(&mut v, t.as_str());
        proof {
            let sub = messages@.subrange(start as int, i + 1);
            assert(sub.drop_last() == messages@.subrange(start as int, i as int));
            assert(sub.last() == messages@[i as int]);
            if i > start {
                assert(v@ == before + "\n\n"@ + history_line(messages@[i as int]));
            } else {
                assert(sub.len() == 1);
                assert(v@ == history_line(messages@[i as int]));
            }
        }
        i = i + 1;
    }
    from_chars(v.as_slice())
}

proof fn lemma_history_prefix(msgs: Seq<ChatMessage>, n: int)
    requires
        1 <= n <= msgs.len(),
    ensures
        starts_with(spec_history_text(msgs), spec_history_text(msgs.take(n))),
    decreases msgs.len(),
{
    if msgs.len() == n {
        assert(msgs.take(n) =~= msgs);
        assert(spec_history_text(msgs).take(spec_history_text(msgs).len() as int) =~= spec_history_text(
            msgs,
        ));
    } else {
        let d = msgs.drop_last();
        lemma_history_prefix(d, n);
        assert(d.take(n) =~= msgs.take(n));
        let t = spec_history_text(msgs);
        let p = spec_history_text(msgs.take(n));
        assert(t == spec_history_text(d) + "\n\n"@ + history_line(msgs.last()));
        assert(t.take(p.len() as int) =~= spec_history_text(d).take(p.len() as int));
    }
}

/// Every line of the history given to the summarizer names who said it: for message `i`, the
/// history of the messages up to it begins the whole history and ends with `[system]: `,
/// `[user]: `, `[assistant]: ` or `[tool]: `, by the message's role, followed by the message's
/// content as cut for the summary.
pub proof fn summary_history_names_each_speaker(msgs: Seq<ChatMessage>, i: int)
    requires
        0 <= i < msgs.len(),
    ensures
        starts_with(spec_history_text(msgs), spec_history_text(msgs.take(i + 1))),
        ({
            let upto = spec_history_text(msgs.take(i + 1));
            let c = spec_truncate_for_summary(msgs[i].content@);
            &&& msgs[i].role == MessageRole::System ==> ends_with(upto, "[system]: "@ + c)
            &&& msgs[i].role == MessageRole::User ==> ends_with(upto, "[user]: "@ + c)
            &&& msgs[i].role == MessageRole::Assistant ==> ends_with(upto, "[assistant]: "@ + c)
            &&& msgs[i].role == MessageRole::Tool ==> ends_with(upto, "[tool]: "@ + c)
        }),
{
    lemma_history_prefix(msgs, i + 1);
    let m = msgs.take(i + 1);
    let upto = spec_history_text(m);
    let line = history_line(msgs[i]);
    assert(m.last() == msgs[i]);
    if i == 0 {
        assert(upto == line);
    } else {
        assert(upto == spec_history_text(m.drop_last()) + "\n\n"@ + line);
    }
    assert(upto.skip(upto.len() - line.len()) =~= line);
    reveal_strlit("[system]: ");
    reveal_strlit("[user]: ");
    reveal_strlit("[assistant]: ");
    reveal_strlit("[tool]: ");
    reveal_strlit("[");
    reveal_strlit("]: ");
    reveal_strlit("system");
    reveal_strlit("user");
    reveal_strlit("assistant");
    reveal_strlit("tool");
    let c = spec_truncate_for_summary(msgs[i].content@);
    assert(line =~= "["@ + msgs[i].role.spec_name() + "]: "@ + c);
    assert("["@ + "system"@ + "]: "@ =~= "[system]: "@);
    assert("["@ + "user"@ + "]: "@ =~= "[user]: "@);
    assert("["@ + "assistant"@ + "]: "@ =~= "[assistant]: "@);
    assert("["@ + "tool"@ + "]: "@ =~= "[tool]: "@);
    assert(("["@ + msgs[i].role.spec_name() + "]: "@) + c =~= "["@ + msgs[i].role.spec_name() + "]: "@ + c);
}

/// The instructions of the model that summarizes a conversation.
pub const SUMMARIZER_SYSTEM_PROMPT: &'static str = "You are a conversation summarizer. Produce concise, factual summaries that preserve all important context for an ongoing diagnostic session.";

/// The sampling temperature of a summary request.
pub const SUMMARY_TEMPERATURE: &'static str = "0.1";

/// The token limit of a summary request.
pub const SUMMARY_MAX_TOKENS: u32 = 1024;

/// What the summarizer is asked about a history text.
pub open spec fn summary_request(history: Seq<char>) -> Seq<char> {
    "Summarize the following conversation history into a concise summary. Preserve key facts, decisions, diagnostic findings, and entity names (pods, namespaces, clusters, services). Remove redundant details.\n\nConversation:\n"@
        + history + "\n\nProvide a structured summary."@
}

/// The conversation that asks a model to summarize a history text.
pub fn summary_request_messages(history: &str) -> (msgs: Vec<ChatMessage>)
    ensures
        msgs@.len() == 2,
        msgs@[0].role == MessageRole::System,
        msgs@[0].content@ == SUMMARIZER_SYSTEM_PROMPT@,
        msgs@[1].role == MessageRole::User,
        msgs@[1].content@ == summary_request(history@),
{
    let mut v = to_chars(
        "Summarize the following conversation history into a concise summary. Preserve key facts, decisions, diagnostic findings, and entity names (pods, namespaces, clusters, services). Remove redundant details.\n\nConversation:\n",
    );
    extend_str(&mut v, history);
    extend_str(&mut v, "\n\nProvide a structured summary.");
    let request = from_chars(v.as_slice());
    let mut msgs: Vec<ChatMessage> = Vec::new();
    msgs.push(ChatMessage::system(SUMMARIZER_SYSTEM_PROMPT));
    msgs.push(ChatMessage::user(request.as_str()));
    msgs
}

/// The system message that carries a summary.
pub open spec fn summary_content(summary: Seq<char>) -> Seq<char> {
    "<context_summary>\n"@ + summary + "\n</context_summary>"@
}

/// Replaces `messages[start..keep_from]` by one summary system message. A leading system prompt
/// (`start == 1`) is kept in front.
pub fn apply_summary(messages: &mut Vec<ChatMessage>, start: usize, keep_from: usize, summary: &str)
    requires
        start <= 1,
        start <= keep_from <= old(messages)@.len(),
    ensures
        final(messages)@.len() == start + 1 + (old(messages)@.len() - keep_from),
        start == 1 ==> final(messages)@[0] == old(messages)@[0],
        final(messages)@[start as int].role == MessageRole::System,
        final(messages)@[start as int].content@ == summary_content(summary@),
        final(messages)@.skip(start + 1) == old(messages)@.skip(keep_from as int),
{
    let mut content: Vec<char> = Vec::new();
    extend_str(&mut content, "<context_summary>\n");
    extend_str(&mut content, summary);
    extend_str(&mut content, "\n</context_summary>");
    let text = from_chars(content.as_slice());
    let summary_msg = ChatMessage::system(text.as_str());
    let mut out: Vec<ChatMessage> = Vec::new();
    if start == 1 {
        out.push(copy_message(&messages[0]));
    }
    out.push(summary_msg);
    let n = messages.len();
    let mut i = keep_from;
    while i < n
        invariant
            keep_from <= i <= n,
            n == messages@.len(),
            messages@ == old(messages)@,
            start <= 1,
            out@.len() == start + 1 + (i - keep_from),
            start == 1 ==> out@[0] == old(messages)@[0],
            out@[start as int].role == MessageRole::System,
            out@[start as int].content@ == summary_content(summary@),
            out@.skip(start + 1) == old(messages)@.subrange(keep_from as int, i as int),
        decreases n - i,
    {
        let ghost prev = out@;
        out.push(copy_message(&messages[i]));
        assert(out@.skip(start + 1) =~= prev.skip(start + 1).push(messages@[i as int]));
        assert(old(messages)@.subrange(keep_from as int, i + 1) == old(messages)@.subrange(
            keep_from as int,
            i as int,
        ).push(old(messages)@[i as int]));
        i = i + 1;
    }
    assert(old(messages)@.subrange(keep_from as int, n as int) == old(messages)@.skip(
        keep_from as int,
    ));
    *messages = out;
}

/// How far a route goes: fitting, compacting, or compacting and truncating tool output.
pub open spec fn route_rank(r: CompactionRoute) -> nat {
    match r {
        CompactionRoute::Fits => 0,
        CompactionRoute::CompactOnly => 1,
        CompactionRoute::CompactAndTruncateTools => 2,
    }
}

/// The preemptive route escalates with the estimate: against the same limit, a larger estimate
/// never gets a milder route.
pub proof fn route_escalates(smaller: nat, larger: nat, max: nat)
    requires
        smaller <= larger,
    ensures
        route_rank(spec_route(smaller, max)) <= route_rank(spec_route(larger, max)),
{
}

/// Compaction spares the system prompt and the recent messages: a window to summarize is not
/// empty, ends where the last `KEEP_RECENT_MESSAGES` messages begin, and starts after a leading
/// system message.
pub proof fn compaction_spares_prompt_and_recent(max: nat, msgs: Seq<ChatMessage>)
    ensures
        spec_compaction_window(max, msgs) matches Some((s, k)) ==> {
            &&& s < k
            &&& k + KEEP_RECENT_MESSAGES == msgs.len()
            &&& msgs[0].role == MessageRole::System ==> s == 1
        },
{
}

} // verus!
