//! Prompts for turning raw tool output into a readable summary.

use crate::agent::context::ChatMessage;
use crate::text::{extend_str, from_chars, to_chars};
use crate::types::agent::IntentType;
use vstd::prelude::*;

verus! {

pub const SYSTEM_PROMPT: &'static str = "你是一个运维 AI 助手，专门帮助用户理解和分析运维数据。

你的职责：
1. 将原始、复杂的运维输出转化为易懂的总结
2. 识别问题模式和异常
3. 提供清晰的下一步行动建议
4. 使用 Markdown 格式输出，便于阅读

输出要求：
- 使用中文回答
- 结构清晰，分点阐述
- 如有数据，尽量用表格展示
- 突出关键发现和警告信息
- 建议要具体可操作";

/// Output of one tool run.
#[derive(Debug, Clone)]
pub struct ToolOutput {
    pub tool_name: String,
    pub content: String,
    pub success: bool,
}

impl ToolOutput {
    pub fn new(tool_name: &str, content: &str, success: bool) -> (o: ToolOutput)
        ensures
            o.tool_name@ == tool_name@,
            o.content@ == content@,
            o.success == success,
    {
        ToolOutput { tool_name: tool_name.to_string(), content: content.to_string(), success }
    }
}

/// The variant name of an intent type, as `{:?}` prints it.
pub open spec fn intent_name(t: IntentType) -> Seq<char> {
    match t {
        IntentType::Query => "Query"@,
        IntentType::Debug => "Debug"@,
        IntentType::Health => "Health"@,
        IntentType::Logs => "Logs"@,
        IntentType::Metrics => "Metrics"@,
        IntentType::Deploy => "Deploy"@,
        IntentType::Scale => "Scale"@,
        IntentType::Unknown => "Unknown"@,
    }
}

/// The name of an intent type.
pub fn intent_type_name(t: &IntentType) -> (r: &'static str)
    ensures
        r@ == intent_name(*t),
{
    match t {
        IntentType::Query => "Query",
        IntentType::Debug => "Debug",
        IntentType::Health => "Health",
        IntentType::Logs => "Logs",
        IntentType::Metrics => "Metrics",
        IntentType::Deploy => "Deploy",
        IntentType::Scale => "Scale",
        IntentType::Unknown => "Unknown",
    }
}

/// The scene sentence for an intent type.
pub open spec fn intent_hint(t: IntentType) -> Seq<char> {
    match t {
        IntentType::Logs => "用户正在分析日志数据"@,
        IntentType::Metrics => "用户正在分析监控指标"@,
        IntentType::Health => "用户正在检查系统健康状态"@,
        IntentType::Debug => "用户正在排查故障根因"@,
        IntentType::Query => "用户正在查询数据"@,
        IntentType::Scale => "用户正在评估扩缩容"@,
        IntentType::Deploy => "用户正在检查部署状态"@,
        IntentType::Unknown => "用户发起了一个运维请求"@,
    }
}

fn intent_hint_str(t: &IntentType) -> (r: &'static str)
    ensures
        r@ == intent_hint(*t),
{
    match t {
        IntentType::Logs => "用户正在分析日志数据",
        IntentType::Metrics => "用户正在分析监控指标",
        IntentType::Health => "用户正在检查系统健康状态",
        IntentType::Debug => "用户正在排查故障根因",
        IntentType::Query => "用户正在查询数据",
        IntentType::Scale => "用户正在评估扩缩容",
        IntentType::Deploy => "用户正在检查部署状态",
        IntentType::Unknown => "用户发起了一个运维请求",
    }
}

/// One tool output's section: `### name 输出\ncontent\n`.
pub open spec fn output_section(o: ToolOutput) -> Seq<char> {
    "### "@ + o.tool_name@ + " 输出\n"@ + o.content@ + "\n"@
}

/// The sections joined by newlines.
pub open spec fn joined_sections(outputs: Seq<ToolOutput>) -> Seq<char>
    decreases outputs.len(),
{
    if outputs.len() == 0 {
        Seq::empty()
    } else if outputs.len() == 1 {
        output_section(outputs[0])
    } else {
        joined_sections(outputs.drop_last()) + "\n"@ + output_section(outputs.last())
    }
}

/// The tool results text of the summary prompt.
pub open spec fn outputs_text(outputs: Seq<ToolOutput>) -> Seq<char> {
    if outputs.len() == 0 {
        "（无工具执行结果）"@
    } else {
        joined_sections(outputs)
    }
}

/// The summary request.
pub open spec fn spec_summary_prompt(t: IntentType, outputs: Seq<ToolOutput>, context: Seq<char>) -> Seq<
    char,
> {
    "场景: "@ + intent_hint(t) + "\n意图类型: "@ + intent_name(t) + "\n用户上下文: "@ + context + "\n\n"@
        + outputs_text(outputs)
        + "\n\n请基于以上数据进行分析。根据数据内容自行决定最合适的分析结构和重点，\n用 Markdown 格式输出。突出关键发现、异常和可操作的建议。请用中文回答。"@
}

/// The request to summarize one text.
pub open spec fn spec_text_request(text: Seq<char>, format_hint: Seq<char>) -> Seq<char> {
    "请总结以下内容，用简洁的 Markdown 格式输出（"@ + format_hint + "）：\n\n"@ + text
}

/// Builds the prompts that ask the model for summaries.
#[derive(Debug, Clone, Copy)]
pub struct Summarizer;

impl Summarizer {
    pub fn new() -> (s: Summarizer) {
        Summarizer
    }

    /// The summary request for tool outputs under an intent: a scene sentence and the intent's
    /// name as context, not fixed analysis steps.
    pub fn build_prompt(&self, intent_type: &IntentType, tool_outputs: &[ToolOutput], context: &str)
        -> (r: String)
        ensures
            r@ == spec_summary_prompt(*intent_type, tool_outputs@, context@),
    {
        let mut v: Vec<char> = to_chars("场景: ");
        extend_str(&mut v, intent_hint_str(intent_type));
        extend_str(&mut v, "\n意图类型: ");
        extend_str(&mut v, intent_type_name(intent_type));
        extend_str(&mut v, "\n用户上下文: ");
        extend_str(&mut v, context);
        extend_str(&mut v, "\n\n");
        let ghost before = v@;
        if tool_outputs.len() == 0 {
            extend_str(&mut v, "（无工具执行结果）");
        } else {
            let mut i: usize = 0;
            while i < tool_outputs.len()
                invariant
                    i <= tool_outputs@.len(),
                    tool_outputs@.len() > 0,
                    v@ == before + joined_sections(tool_outputs@.take(i as int)),
                decreases tool_outputs.len() - i,
            {
                let o = &tool_outputs[i];
                let ghost mid = v@;
                if i > 0 {
                    extend_str(&mut v, "\n");
                }
                extend_str(&mut v, "### ");
                extend_str(&mut v, o.tool_name.as_str());
                extend_str(&mut v, " 输出\n");
                extend_str(&mut v, o.content.as_str());
                extend_str(&mut v, "\n");
                proof {
                    let t = tool_outputs@.take(i + 1);
                    assert(t.drop_last() == tool_outputs@.take(i as int));
                    assert(t.last() == tool_outputs@[i as int]);
                    if i == 0 {
                        assert(t.len() == 1);
                        assert(joined_sections(tool_outputs@.take(0)) == Seq::<char>::empty());
                        assert(v@ == before + output_section(tool_outputs@[0]));
                    } else {
                        assert(v@ == mid + "\n"@ + output_section(tool_outputs@[i as int]));
                    }
                }
                i = i + 1;
            }
            assert(tool_outputs@.take(tool_outputs@.len() as int) == tool_outputs@);
        }
        extend_str(
            &mut v,
            "\n\n请基于以上数据进行分析。根据数据内容自行决定最合适的分析结构和重点，\n用 Markdown 格式输出。突出关键发现、异常和可操作的建议。请用中文回答。",
        );
        from_chars(v.as_slice())
    }

    /// The conversation that asks for a summary of tool outputs.
    pub fn summary_messages(&self, intent_type: &IntentType, tool_outputs: &[ToolOutput], context: &str)
        -> (msgs: Vec<ChatMessage>)
        ensures
            msgs@.len() == 2,
            msgs@[0].role == crate::agent::context::MessageRole::System,
            msgs@[0].content@ == SYSTEM_PROMPT@,
            msgs@[1].role == crate::agent::context::MessageRole::User,
            msgs@[1].content@ == spec_summary_prompt(*intent_type, tool_outputs@, context@),
    {
        let prompt = self.build_prompt(intent_type, tool_outputs, context);
        let mut msgs: Vec<ChatMessage> = Vec::new();
        msgs.push(ChatMessage::system(SYSTEM_PROMPT));
        msgs.push(ChatMessage::user(prompt.as_str()));
        msgs
    }

    /// The conversation that asks for a summary of one text.
    pub fn text_messages(&self, text: &str, format_hint: &str) -> (msgs: Vec<ChatMessage>)
        ensures
            msgs@.len() == 2,
            msgs@[0].role == crate::agent::context::MessageRole::System,
            msgs@[0].content@ == SYSTEM_PROMPT@,
            msgs@[1].role == crate::agent::context::MessageRole::User,
            msgs@[1].content@ == spec_text_request(text@, format_hint@),
    {
        let mut v: Vec<char> = to_chars("请总结以下内容，用简洁的 Markdown 格式输出（");
        extend_str(&mut v, format_hint);
        extend_str(&mut v, "）：\n\n");
        extend_str(&mut v, text);
        let req = from_chars(v.as_slice());
        let mut msgs: Vec<ChatMessage> = Vec::new();
        msgs.push(ChatMessage::system(SYSTEM_PROMPT));
        msgs.push(ChatMessage::user(req.as_str()));
        msgs
    }
}

} // verus!
