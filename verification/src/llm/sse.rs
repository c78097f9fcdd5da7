//! Server-sent event framing: `event:` lines name the type, `data:` lines accumulate the
//! payload, and a blank line dispatches the event.

use crate::text::{
    from_chars, lines, split_lines, starts_with, starts_with_chars, to_chars, trim, trim_chars,
    vecs_view,
};
use crate::json::{
    index_in, json_array, json_get, json_index, json_str, json_str_or_empty, json_u64_or_zero,
    or_null, parse_json, parsed_json, str_in, str_view, u64_in, JsonValue,
};
use crate::llm::types::{deltas_view, push_delta, ChatDelta, DeltaModel, Usage};
use crate::text::{char_count, str_eq, trim_str};
use vstd::prelude::*;

verus! {

/// Parser state: events dispatched so far, current event type, current data.
pub struct SseState {
    pub events: Seq<(Seq<char>, Seq<char>)>,
    pub event: Seq<char>,
    pub data: Seq<char>,
}

pub open spec fn initial_state() -> SseState {
    SseState { events: Seq::empty(), event: Seq::empty(), data: Seq::empty() }
}

/// Data joined to what came before with a newline.
pub open spec fn append_data(data: Seq<char>, rest: Seq<char>) -> Seq<char> {
    if data.len() > 0 {
        data.push('\n') + rest
    } else {
        data + rest
    }
}

/// What one line does to the parser state.
pub open spec fn sse_step(st: SseState, line: Seq<char>) -> SseState {
    if line.len() == 0 {
        if st.data.len() > 0 {
            SseState {
                events: st.events.push((st.event, st.data)),
                event: Seq::empty(),
                data: Seq::empty(),
            }
        } else {
            st
        }
    } else if starts_with(line, "event: "@) {
        SseState { event: trim(line.skip("event: "@.len() as int)), ..st }
    } else if starts_with(line, "event:"@) {
        SseState { event: trim(line.skip("event:"@.len() as int)), ..st }
    } else if starts_with(line, "data: "@) {
        SseState { data: append_data(st.data, line.skip("data: "@.len() as int)), ..st }
    } else if starts_with(line, "data:"@) {
        SseState { data: append_data(st.data, line.skip("data:"@.len() as int)), ..st }
    } else {
        st
    }
}

/// The state after a sequence of lines.
pub open spec fn sse_fold(ls: Seq<Seq<char>>) -> SseState
    decreases ls.len(),
{
    if ls.len() == 0 {
        initial_state()
    } else {
        sse_step(sse_fold(ls.drop_last()), ls.last())
    }
}

/// The events of a text: those dispatched by blank lines, then the trailing data if any.
pub open spec fn spec_sse_events(text: Seq<char>) -> Seq<(Seq<char>, Seq<char>)> {
    let st = sse_fold(lines(text));
    if st.data.len() > 0 {
        st.events.push((st.event, st.data))
    } else {
        st.events
    }
}

pub open spec fn pairs_view(v: Seq<(String, String)>) -> Seq<(Seq<char>, Seq<char>)> {
    Seq::new(v.len(), |i: int| (v[i].0@, v[i].1@))
}

/// Splits raw server-sent event text into `(event_type, data)` pairs.
pub fn iter_sse_lines(text: &str) -> (r: Vec<(String, String)>)
    ensures
        pairs_view(r@) == spec_sse_events(text@),
{
    let tv = to_chars(text);
    let ls = split_lines(tv.as_slice());
    let ghost lsv = vecs_view(ls@);
    let ev_sp = to_chars("event: ");
    let ev = to_chars("event:");
    let da_sp = to_chars("data: ");
    let da = to_chars("data:");
    let mut events: Vec<(String, String)> = Vec::new();
    let mut event: Vec<char> = Vec::new();
    let mut data: Vec<char> = Vec::new();
    let mut i: usize = 0;
    assert(lsv.take(0) == Seq::<Seq<char>>::empty());
    while i < ls.len()
        invariant
            i <= ls@.len(),
            lsv == vecs_view(ls@),
            lsv == lines(text@),
            ev_sp@ == "event: "@,
            ev@ == "event:"@,
            da_sp@ == "data: "@,
            da@ == "data:"@,
            pairs_view(events@) == sse_fold(lsv.take(i as int)).events,
            event@ == sse_fold(lsv.take(i as int)).event,
            data@ == sse_fold(lsv.take(i as int)).data,
        decreases ls.len() - i,
    {
        let line = &ls[i];
        assert(line@ == lsv[i as int]);
        assert(lsv.take(i + 1).drop_last() == lsv.take(i as int));
        assert(lsv.take(i + 1).last() == lsv[i as int]);
        if line.len() == 0 {
            if data.len() > 0 {
                let ghost before = pairs_view(events@);
                events.push((from_chars(event.as_slice()), from_chars(data.as_slice())));
                assert(pairs_view(events@) =~= before.push((event@, data@)));
                event = Vec::new();
                data = Vec::new();
            }
        } else if starts_with_chars(line.as_slice(), ev_sp.as_slice()) {
            let rest = crate::text::slice_chars(line.as_slice(), ev_sp.len(), line.len());
            assert(rest@ == line@.skip("event: "@.len() as int));
            event = trim_chars(rest.as_slice());
        } else if starts_with_chars(line.as_slice(), ev.as_slice()) {
            let rest = crate::text::slice_chars(line.as_slice(), ev.len(), line.len());
            assert(rest@ == line@.skip("event:"@.len() as int));
            event = trim_chars(rest.as_slice());
        } else if starts_with_chars(line.as_slice(), da_sp.as_slice()) {
            let rest = crate::text::slice_chars(line.as_slice(), da_sp.len(), line.len());
            assert(rest@ == line@.skip("data: "@.len() as int));
            if data.len() > 0 {
                data.push('\n');
            }
            crate::text::extend_chars(&mut data, rest.as_slice());
        } else if starts_with_chars(line.as_slice(), da.as_slice()) {
            let rest = crate::text::slice_chars(line.as_slice(), da.len(), line.len());
            assert(rest@ == line@.skip("data:"@.len() as int));
            if data.len() > 0 {
                data.push('\n');
            }
            crate::text::extend_chars(&mut data, rest.as_slice());
        }
        i = i + 1;
    }
    assert(lsv.take(ls@.len() as int) == lsv);
    if data.len() > 0 {
        let ghost before = pairs_view(events@);
        events.push((from_chars(event.as_slice()), from_chars(data.as_slice())));
        assert(pairs_view(events@) =~= before.push((event@, data@)));
    }
    events
}

} // verus!

verus! {

/// The usage block of an OpenAI-compatible chunk, when it is an object.
pub open spec fn openai_usage_deltas(json: JsonValue) -> Seq<DeltaModel> {
    match json_get(json, "usage"@) {
        Some(u) => if u is Object {
            seq![
                DeltaModel::Done(
                    Usage {
                        prompt_tokens: json_u64_or_zero(json_index(u, "prompt_tokens"@)) as u32,
                        completion_tokens: json_u64_or_zero(
                            json_index(u, "completion_tokens"@),
                        ) as u32,
                        total_tokens: json_u64_or_zero(json_index(u, "total_tokens"@)) as u32,
                    },
                ),
            ]
        } else {
            Seq::empty()
        },
        None => Seq::empty(),
    }
}

/// A non-empty string field as a one-piece list.
pub open spec fn nonempty_text(s: Option<Seq<char>>, thinking: bool) -> Seq<DeltaModel> {
    match s {
        Some(t) => if t.len() > 0 {
            if thinking {
                seq![DeltaModel::Thinking(t)]
            } else {
                seq![DeltaModel::Text(t)]
            }
        } else {
            Seq::empty()
        },
        None => Seq::empty(),
    }
}

/// One entry of `delta.tool_calls`: a start when the function has a name, then its argument
/// text when that is not empty.
pub open spec fn openai_tool_call(tc: JsonValue) -> Seq<DeltaModel> {
    let index = json_u64_or_zero(json_index(tc, "index"@)) as usize;
    match json_get(tc, "function"@) {
        Some(func) => {
            let start = match json_str(json_index(func, "name"@)) {
                Some(name) => seq![
                    DeltaModel::ToolStart(index, json_str_or_empty(json_index(tc, "id"@)), name),
                ],
                None => Seq::empty(),
            };
            let args = match json_str(json_index(func, "arguments"@)) {
                Some(a) => if a.len() > 0 {
                    seq![DeltaModel::ToolChunk(index, a)]
                } else {
                    Seq::empty()
                },
                None => Seq::empty(),
            };
            start + args
        },
        None => Seq::empty(),
    }
}

pub open spec fn openai_tool_calls(tcs: Seq<JsonValue>) -> Seq<DeltaModel>
    decreases tcs.len(),
{
    if tcs.len() == 0 {
        Seq::empty()
    } else {
        openai_tool_calls(tcs.drop_last()) + openai_tool_call(tcs.last())
    }
}

/// One entry of `choices`: its text, its reasoning text, then its tool calls.
pub open spec fn openai_choice(choice: JsonValue) -> Seq<DeltaModel> {
    let delta = json_index(choice, "delta"@);
    nonempty_text(json_str(json_index(delta, "content"@)), false) + nonempty_text(
        json_str(json_index(delta, "reasoning_content"@)),
        true,
    ) + match json_array(json_index(delta, "tool_calls"@)) {
        Some(tcs) => openai_tool_calls(tcs),
        None => Seq::empty(),
    }
}

/// An OpenAI-compatible choice streams its answer text as answer text and its reasoning as
/// thinking: a non-empty `delta.content` gives the first piece, an answer-text piece carrying
/// it; a non-empty `delta.reasoning_content` gives a thinking piece carrying it, right after the
/// answer text when there is some, first otherwise.
pub proof fn openai_choice_keeps_text_and_reasoning_apart(choice: JsonValue)
    ensures
        ({
            let delta = json_index(choice, "delta"@);
            let content = json_str(json_index(delta, "content"@));
            let reasoning = json_str(json_index(delta, "reasoning_content"@));
            let d = openai_choice(choice);
            let first_thinking: int = if content matches Some(t) && t.len() > 0 {
                1
            } else {
                0
            };
            &&& content matches Some(t) ==> (t.len() > 0 ==> (d.len() >= 1 && d[0]
                == DeltaModel::Text(t)))
            &&& reasoning matches Some(r) ==> (r.len() > 0 ==> (d.len() > first_thinking
                && d[first_thinking] == DeltaModel::Thinking(r)))
        }),
{
    let delta = json_index(choice, "delta"@);
    let a = nonempty_text(json_str(json_index(delta, "content"@)), false);
    let b = nonempty_text(json_str(json_index(delta, "reasoning_content"@)), true);
    let c = match json_array(json_index(delta, "tool_calls"@)) {
        Some(tcs) => openai_tool_calls(tcs),
        None => Seq::empty(),
    };
    assert(openai_choice(choice) == a + b + c);
    assert((a + b + c).len() == a.len() + b.len() + c.len());
    if b.len() > 0 {
        assert((a + b + c)[a.len() as int] == b[0]);
    }
    if a.len() > 0 {
        assert((a + b + c)[0] == a[0]);
    }
}

pub open spec fn openai_choices(cs: Seq<JsonValue>) -> Seq<DeltaModel>
    decreases cs.len(),
{
    if cs.len() == 0 {
        Seq::empty()
    } else {
        openai_choices(cs.drop_last()) + openai_choice(cs.last())
    }
}

/// The pieces of one parsed OpenAI-compatible chunk: usage first, then each choice in order.
pub open spec fn openai_chunk(json: JsonValue) -> Seq<DeltaModel> {
    openai_usage_deltas(json) + match json_array(json_index(json, "choices"@)) {
        Some(cs) => openai_choices(cs),
        None => Seq::empty(),
    }
}

/// The pieces of an OpenAI-compatible `data:` payload: `None` for `[DONE]` and for a payload
/// that is not JSON.
pub open spec fn openai_sse(data: Seq<char>) -> Option<Seq<DeltaModel>> {
    let t = trim(data);
    if t == "[DONE]"@ {
        None
    } else {
        match parsed_json(t) {
            Some(json) => Some(openai_chunk(json)),
            None => None,
        }
    }
}

fn push_nonempty_text(out: &mut Vec<ChatDelta>, s: Option<String>, thinking: bool)
    ensures
        deltas_view(final(out)@) == deltas_view(old(out)@) + nonempty_text(str_view(s), thinking),
{
    match s {
        Some(t) => {
            if char_count(t.as_str()) > 0 {
                if thinking {
                    push_delta(out, ChatDelta::ThinkingDelta(t));
                } else {
                    push_delta(out, ChatDelta::TextDelta(t));
                }
            } else {
                assert(deltas_view(out@) =~= deltas_view(old(out)@) + Seq::<DeltaModel>::empty());
            }
        },
        None => {
            assert(deltas_view(out@) =~= deltas_view(old(out)@) + Seq::<DeltaModel>::empty());
        },
    }
}

fn push_openai_tool_call(out: &mut Vec<ChatDelta>, tc: &JsonValue)
    ensures
        deltas_view(final(out)@) == deltas_view(old(out)@) + openai_tool_call(*tc),
{
    let index = u64_in(index_in(Some(tc), "index")) as usize;
    let ghost before = deltas_view(out@);
    match tc.get("function") {
        Some(func) => {
            let name = str_in(index_in(Some(func), "name"));
            match name {
                Some(n) => {
                    let id = match str_in(index_in(Some(tc), "id")) {
                        Some(i) => i,
                        None => String::new(),
                    };
                    push_delta(out, ChatDelta::ToolCallStart { index, id, name: n });
                },
                None => {},
            }
            let ghost mid = deltas_view(out@);
            let args = str_in(index_in(Some(func), "arguments"));
            match args {
                Some(a) => {
                    if char_count(a.as_str()) > 0 {
                        push_delta(out, ChatDelta::ToolCallDelta { index, json_chunk: a });
                    } else {
                    }
                },
                None => {},
            }
            assert(deltas_view(out@) =~= before + openai_tool_call(*tc));
        },
        None => {
            assert(deltas_view(out@) =~= before + openai_tool_call(*tc));
        },
    }
}

fn push_openai_choice(out: &mut Vec<ChatDelta>, choice: &JsonValue)
    ensures
        deltas_view(final(out)@) == deltas_view(old(out)@) + openai_choice(*choice),
{
    let ghost before = deltas_view(out@);
    let delta = index_in(Some(choice), "delta");
    push_nonempty_text(out, str_in(index_in(delta, "content")), false);
    push_nonempty_text(out, str_in(index_in(delta, "reasoning_content")), true);
    let ghost mid = deltas_view(out@);
    let calls = index_in(delta, "tool_calls");
    match calls {
        Some(c) => match c.as_array() {
            Some(tcs) => {
                let mut i: usize = 0;
                while i < tcs.len()
                    invariant
                        i <= tcs@.len(),
                        deltas_view(out@) == mid + openai_tool_calls(tcs@.take(i as int)),
                    decreases tcs.len() - i,
                {
                    let ghost pre = deltas_view(out@);
                    push_openai_tool_call(out, &tcs[i]);
                    assert(tcs@.take(i + 1).drop_last() =~= tcs@.take(i as int));
                    assert(deltas_view(out@) =~= mid + openai_tool_calls(tcs@.take(i + 1)));
                    i = i + 1;
                }
                assert(tcs@.take(tcs@.len() as int) =~= tcs@);
            },
            None => {
                assert(deltas_view(out@) =~= mid + Seq::<DeltaModel>::empty());
            },
        },
        None => {
            assert(deltas_view(out@) =~= mid + Seq::<DeltaModel>::empty());
        },
    }
    assert(deltas_view(out@) =~= before + openai_choice(*choice));
}

/// Parses one `data:` payload of an OpenAI-compatible stream: `None` for `[DONE]` or a payload
/// that is not JSON, else the pieces of the chunk.
pub fn parse_openai_sse_data(data: &str) -> (r: Option<Vec<ChatDelta>>)
    ensures
        match r {
            Some(v) => openai_sse(data@) == Some(deltas_view(v@)),
            None => openai_sse(data@) is None,
        },
{
    let trimmed = trim_str(data);
    proof {
        reveal_strlit("[DONE]");
    }
    if str_eq(trimmed.as_str(), "[DONE]") {
        return None;
    }
    let mut deltas: Vec<ChatDelta> = Vec::new();
    assert(deltas_view(deltas@) =~= Seq::<DeltaModel>::empty());
    let json = match parse_json(trimmed.as_str()) {
        Some(j) => j,
        None => {
            return None;
        },
    };
    match json.get("usage") {
        Some(u) => {
            if u.is_object() {
                let usage = Usage {
                    prompt_tokens: u64_in(u.get("prompt_tokens")) as u32,
                    completion_tokens: u64_in(u.get("completion_tokens")) as u32,
                    total_tokens: u64_in(u.get("total_tokens")) as u32,
                };
                push_delta(&mut deltas, ChatDelta::Done { usage });
            }
        },
        None => {},
    }
    let ghost mid = deltas_view(deltas@);
    assert(mid =~= openai_usage_deltas(json));
    match json.get("choices") {
        Some(c) => match c.as_array() {
            Some(cs) => {
                let mut i: usize = 0;
                while i < cs.len()
                    invariant
                        i <= cs@.len(),
                        deltas_view(deltas@) == mid + openai_choices(cs@.take(i as int)),
                    decreases cs.len() - i,
                {
                    push_openai_choice(&mut deltas, &cs[i]);
                    assert(cs@.take(i + 1).drop_last() =~= cs@.take(i as int));
                    assert(deltas_view(deltas@) =~= mid + openai_choices(cs@.take(i + 1)));
                    i = i + 1;
                }
                assert(cs@.take(cs@.len() as int) =~= cs@);
            },
            None => {},
        },
        None => {},
    }
    assert(deltas_view(deltas@) =~= openai_chunk(json));
    Some(deltas)
}

} // verus!

verus! {

/// The pieces of one parsed Anthropic event of the given type.
pub open spec fn anthropic_event(event_type: Seq<char>, json: JsonValue) -> Seq<DeltaModel> {
    if event_type == "content_block_delta"@ {
        let delta = json_index(json, "delta"@);
        let delta_type = json_str_or_empty(json_index(delta, "type"@));
        if delta_type == "text_delta"@ {
            match json_str(json_index(delta, "text"@)) {
                Some(t) => seq![DeltaModel::Text(t)],
                None => Seq::empty(),
            }
        } else if delta_type == "thinking_delta"@ {
            match json_str(json_index(delta, "thinking"@)) {
                Some(t) => seq![DeltaModel::Thinking(t)],
                None => Seq::empty(),
            }
        } else if delta_type == "input_json_delta"@ {
            match json_str(json_index(delta, "partial_json"@)) {
                Some(p) => seq![
                    DeltaModel::ToolChunk(
                        json_u64_or_zero(json_index(json, "index"@)) as usize,
                        p,
                    ),
                ],
                None => Seq::empty(),
            }
        } else {
            Seq::empty()
        }
    } else if event_type == "content_block_start"@ {
        let block = json_index(json, "content_block"@);
        if json_str_or_empty(json_index(block, "type"@)) == "tool_use"@ {
            seq![
                DeltaModel::ToolStart(
                    json_u64_or_zero(json_index(json, "index"@)) as usize,
                    json_str_or_empty(json_index(block, "id"@)),
                    json_str_or_empty(json_index(block, "name"@)),
                ),
            ]
        } else {
            Seq::empty()
        }
    } else if event_type == "message_delta"@ {
        match json_get(json, "usage"@) {
            Some(u) => seq![
                DeltaModel::Done(
                    Usage {
                        prompt_tokens: 0,
                        completion_tokens: json_u64_or_zero(json_index(u, "output_tokens"@)) as u32,
                        total_tokens: 0,
                    },
                ),
            ],
            None => Seq::empty(),
        }
    } else if event_type == "message_start"@ {
        match json_get(json_index(json, "message"@), "usage"@) {
            Some(u) => seq![
                DeltaModel::Done(
                    Usage {
                        prompt_tokens: json_u64_or_zero(json_index(u, "input_tokens"@)) as u32,
                        completion_tokens: 0,
                        total_tokens: 0,
                    },
                ),
            ],
            None => Seq::empty(),
        }
    } else {
        Seq::empty()
    }
}

/// An Anthropic content-block delta is streamed as what it is: a `thinking_delta` carrying
/// thinking text gives exactly that thinking, and a `text_delta` carrying text gives exactly
/// that answer text. Whatever the event, answer text comes only from a `text_delta` of a
/// content-block delta and thinking only from a `thinking_delta`.
pub proof fn anthropic_deltas_keep_their_kind(event_type: Seq<char>, data: Seq<char>)
    ensures
        match parsed_json(trim(data)) {
            Some(json) => {
                let delta = json_index(json, "delta"@);
                let kind = json_str(json_index(delta, "type"@));
                &&& (event_type == "content_block_delta"@ && kind == Some("thinking_delta"@) && json_str(
                    json_index(delta, "thinking"@),
                ) is Some) ==> anthropic_sse(event_type, data) == Some(
                    seq![DeltaModel::Thinking(json_str(json_index(delta, "thinking"@)).unwrap())],
                )
                &&& (event_type == "content_block_delta"@ && kind == Some("text_delta"@) && json_str(
                    json_index(delta, "text"@),
                ) is Some) ==> anthropic_sse(event_type, data) == Some(
                    seq![DeltaModel::Text(json_str(json_index(delta, "text"@)).unwrap())],
                )
                &&& forall|i: int|
                    #![trigger anthropic_sse(event_type, data).unwrap()[i]]
                    (anthropic_sse(event_type, data) is Some && 0 <= i < anthropic_sse(
                        event_type,
                        data,
                    ).unwrap().len() && anthropic_sse(event_type, data).unwrap()[i] is Text) ==> (
                    event_type == "content_block_delta"@ && kind == Some("text_delta"@))
                &&& forall|i: int|
                    #![trigger anthropic_sse(event_type, data).unwrap()[i]]
                    (anthropic_sse(event_type, data) is Some && 0 <= i < anthropic_sse(
                        event_type,
                        data,
                    ).unwrap().len() && anthropic_sse(event_type, data).unwrap()[i] is Thinking) ==> (
                    event_type == "content_block_delta"@ && kind == Some("thinking_delta"@))
            },
            None => anthropic_sse(event_type, data) is None,
        },
{
    reveal_strlit("text_delta");
    reveal_strlit("thinking_delta");
    reveal_strlit("input_json_delta");
    reveal_strlit("content_block_delta");
    reveal_strlit("content_block_start");
    reveal_strlit("message_delta");
    reveal_strlit("message_start");
    reveal_strlit("tool_use");
    match parsed_json(trim(data)) {
        Some(json) => {
            let delta = json_index(json, "delta"@);
            let kind = json_str(json_index(delta, "type"@));
            let d = anthropic_event(event_type, json);
            assert("text_delta"@.len() > 0);
            assert("thinking_delta"@.len() > 0);
            assert(kind == Some("text_delta"@) ==> json_str_or_empty(json_index(delta, "type"@)) == "text_delta"@);
            assert(kind == Some("thinking_delta"@) ==> json_str_or_empty(json_index(delta, "type"@)) == "thinking_delta"@);
            assert(json_str_or_empty(json_index(delta, "type"@)) == "text_delta"@ ==> kind == Some("text_delta"@));
            assert(json_str_or_empty(json_index(delta, "type"@)) == "thinking_delta"@ ==> kind == Some("thinking_delta"@));
            assert forall|i: int| 0 <= i < d.len() && d[i] is Text implies (
                event_type == "content_block_delta"@ && kind == Some("text_delta"@)) by {
            }
            assert forall|i: int| 0 <= i < d.len() && d[i] is Thinking implies (
                event_type == "content_block_delta"@ && kind == Some("thinking_delta"@)) by {
            }
        },
        None => {},
    }
}

/// The pieces of an Anthropic `data:` payload: `None` when it is not JSON or yields nothing.
pub open spec fn anthropic_sse(event_type: Seq<char>, data: Seq<char>) -> Option<Seq<DeltaModel>> {
    match parsed_json(trim(data)) {
        Some(json) => {
            let d = anthropic_event(event_type, json);
            if d.len() == 0 {
                None
            } else {
                Some(d)
            }
        },
        None => None,
    }
}

fn str_or_empty(v: Option<&JsonValue>) -> (r: String)
    ensures
        r@ == json_str_or_empty(or_null(v)),
{
    match str_in(v) {
        Some(s) => s,
        None => String::new(),
    }
}

/// Parses one event of an Anthropic Messages stream.
pub fn parse_anthropic_sse_event(event_type: &str, data: &str) -> (r: Option<Vec<ChatDelta>>)
    ensures
        match r {
            Some(v) => anthropic_sse(event_type@, data@) == Some(deltas_view(v@)),
            None => anthropic_sse(event_type@, data@) is None,
        },
{
    let trimmed = trim_str(data);
    let json = match parse_json(trimmed.as_str()) {
        Some(j) => j,
        None => {
            return None;
        },
    };
    proof {
        reveal_strlit("content_block_delta");
        reveal_strlit("content_block_start");
        reveal_strlit("message_delta");
        reveal_strlit("message_start");
        reveal_strlit("text_delta");
        reveal_strlit("thinking_delta");
        reveal_strlit("input_json_delta");
        reveal_strlit("tool_use");
    }
    let mut deltas: Vec<ChatDelta> = Vec::new();
    assert(deltas_view(deltas@) =~= Seq::<DeltaModel>::empty());
    if str_eq(event_type, "content_block_delta") {
        let delta = index_in(Some(&json), "delta");
        let delta_type = str_or_empty(index_in(delta, "type"));
        if str_eq(delta_type.as_str(), "text_delta") {
            match str_in(index_in(delta, "text")) {
                Some(t) => push_delta(&mut deltas, ChatDelta::TextDelta(t)),
                None => {},
            }
        } else if str_eq(delta_type.as_str(), "thinking_delta") {
            match str_in(index_in(delta, "thinking")) {
                Some(t) => push_delta(&mut deltas, ChatDelta::ThinkingDelta(t)),
                None => {},
            }
        } else if str_eq(delta_type.as_str(), "input_json_delta") {
            match str_in(index_in(delta, "partial_json")) {
                Some(p) => {
                    let index = u64_in(index_in(Some(&json), "index")) as usize;
                    push_delta(&mut deltas, ChatDelta::ToolCallDelta { index, json_chunk: p });
                },
                None => {},
            }
        }
    } else if str_eq(event_type, "content_block_start") {
        let block = index_in(Some(&json), "content_block");
        let block_type = str_or_empty(index_in(block, "type"));
        if str_eq(block_type.as_str(), "tool_use") {
            let index = u64_in(index_in(Some(&json), "index")) as usize;
            let id = str_or_empty(index_in(block, "id"));
            let name = str_or_empty(index_in(block, "name"));
            push_delta(&mut deltas, ChatDelta::ToolCallStart { index, id, name });
        }
    } else if str_eq(event_type, "message_delta") {
        match json.get("usage") {
            Some(u) => {
                let usage = Usage {
                    prompt_tokens: 0,
                    completion_tokens: u64_in(u.get("output_tokens")) as u32,
                    total_tokens: 0,
                };
                push_delta(&mut deltas, ChatDelta::Done { usage });
            },
            None => {},
        }
    } else if str_eq(event_type, "message_start") {
        match index_in(Some(&json), "message") {
            Some(m) => match m.get("usage") {
                Some(u) => {
                    let usage = Usage {
                        prompt_tokens: u64_in(u.get("input_tokens")) as u32,
                        completion_tokens: 0,
                        total_tokens: 0,
                    };
                    push_delta(&mut deltas, ChatDelta::Done { usage });
                },
                None => {},
            },
            None => {},
        }
    }
    assert(deltas_view(deltas@) =~= anthropic_event(event_type@, json));
    if deltas.len() == 0 {
        None
    } else {
        Some(deltas)
    }
}

} // verus!
