//! Values exchanged with model providers: token usage and the pieces a streamed reply
//! arrives in.

use vstd::prelude::*;

verus! {

/// Token usage reported by a provider.
#[derive(Debug, Clone, Copy, PartialEq, Eq, Structural)]
pub struct Usage {
    pub prompt_tokens: u32,
    pub completion_tokens: u32,
    pub total_tokens: u32,
}

/// One piece of a streamed reply.
#[derive(Debug)]
pub enum ChatDelta {
    TextDelta(String),
    ThinkingDelta(String),
    ToolCallStart { index: usize, id: String, name: String },
    ToolCallDelta { index: usize, json_chunk: String },
    Done { usage: Usage },
}

/// What a streamed piece carries, as plain values.
pub enum DeltaModel {
    Text(Seq<char>),
    Thinking(Seq<char>),
    ToolStart(usize, Seq<char>, Seq<char>),
    ToolChunk(usize, Seq<char>),
    Done(Usage),
}

impl View for ChatDelta {
    type V = DeltaModel;

    open spec fn view(&self) -> DeltaModel {
        match self {
            ChatDelta::TextDelta(t) => DeltaModel::Text(t@),
            ChatDelta::ThinkingDelta(t) => DeltaModel::Thinking(t@),
            ChatDelta::ToolCallStart { index, id, name } => DeltaModel::ToolStart(*index, id@, name@),
            ChatDelta::ToolCallDelta { index, json_chunk } => DeltaModel::ToolChunk(
                *index,
                json_chunk@,
            ),
            ChatDelta::Done { usage } => DeltaModel::Done(*usage),
        }
    }
}

/// The plain values of a list of pieces.
pub open spec fn deltas_view(s: Seq<ChatDelta>) -> Seq<DeltaModel> {
    s.map_values(|d: ChatDelta| d@)
}

/// Appends one piece.
pub fn push_delta(out: &mut Vec<ChatDelta>, d: ChatDelta)
    ensures
        deltas_view(final(out)@) == deltas_view(old(out)@).push(d@),
{
    let ghost dv = d@;
    out.push(d);
    assert(deltas_view(out@) =~= deltas_view(old(out)@).push(dv));
}

} // verus!
