//! What goes over the wire to a model provider: the request bodies of the OpenAI-compatible
//! chat completions API and of the Anthropic messages API, built from a conversation, and what
//! is read back from a non-streamed reply. Object keys are listed in the order `serde_json`
//! writes them (sorted), so that the tree renders as the provider client sends it.

use crate::agent::context::{ChatMessage, MessageRole};
use crate::json::{
    entry_models, jarray, jobject, json_array, json_index, json_model, json_str, json_u64_or_zero,
    jstring, models, JsonModel, JsonValue,
};
use crate::llm::types::Usage;
use crate::text::{decimal, extend_str, from_chars, to_chars, u64_to_decimal};
use vstd::prelude::*;

verus! {

/// The sampling temperature a chat completions request carries when the caller sets none.
pub const DEFAULT_TEMPERATURE: &'static str = "0.7";

pub open spec fn opt_text(t: Option<&str>) -> Option<Seq<char>> {
    match t {
        Some(s) => Some(s@),
        None => None,
    }
}

pub open spec fn str_entry(key: Seq<char>, value: Seq<char>) -> (Seq<char>, JsonModel) {
    (key, JsonModel::Str(value))
}

/// An OpenAI-compatible message: role and content, and the call it answers for a tool result.
pub open spec fn openai_message(m: ChatMessage) -> JsonModel {
    match m.tool_call_id {
        Some(id) => JsonModel::Object(
            seq![
                str_entry("content"@, m.content@),
                str_entry("role"@, m.role.spec_name()),
                str_entry("tool_call_id"@, id@),
            ],
        ),
        None => JsonModel::Object(
            seq![str_entry("content"@, m.content@), str_entry("role"@, m.role.spec_name())],
        ),
    }
}

pub open spec fn openai_messages(ms: Seq<ChatMessage>) -> Seq<JsonModel> {
    Seq::new(ms.len(), |i: int| openai_message(ms[i]))
}

/// The body of a chat completions request; the temperature is the number text given, or the
/// default one.
pub open spec fn openai_body(
    model: Seq<char>,
    ms: Seq<ChatMessage>,
    max_tokens: u32,
    temperature: Option<Seq<char>>,
    stream: bool,
) -> JsonModel {
    let head = seq![
        ("max_tokens"@, JsonModel::Number(decimal(max_tokens as nat))),
        ("messages"@, JsonModel::Array(openai_messages(ms))),
        str_entry("model"@, model),
        ("stream"@, JsonModel::Bool(stream)),
    ];
    let options = if stream {
        seq![("stream_options"@, JsonModel::Object(seq![("include_usage"@, JsonModel::Bool(true))]))]
    } else {
        Seq::empty()
    };
    JsonModel::Object(
        head + options + seq![
            (
                "temperature"@,
                JsonModel::Number(
                    match temperature {
                        Some(t) => t,
                        None => DEFAULT_TEMPERATURE@,
                    },
                ),
            ),
        ],
    )
}

/// The system prompt of an Anthropic request: the system messages' contents, in order, a
/// newline between each and the text gathered so far when that is not empty.
pub open spec fn anthropic_system(ms: Seq<ChatMessage>) -> Seq<char>
    decreases ms.len(),
{
    if ms.len() == 0 {
        Seq::empty()
    } else {
        let p = anthropic_system(ms.drop_last());
        let m = ms.last();
        if m.role == MessageRole::System {
            if p.len() > 0 {
                p + "\n"@ + m.content@
            } else {
                m.content@
            }
        } else {
            p
        }
    }
}

/// An Anthropic message for a message that is not a system one: a user message as it is; an
/// assistant message with its text as a content block (a plain empty string when it has none);
/// a tool result inside a user message.
pub open spec fn anthropic_message(m: ChatMessage) -> JsonModel {
    if m.role == MessageRole::Assistant {
        if m.content@.len() > 0 {
            JsonModel::Object(
                seq![
                    (
                        "content"@,
                        JsonModel::Array(
                            seq![
                                JsonModel::Object(
                                    seq![str_entry("text"@, m.content@), str_entry("type"@, "text"@)],
                                ),
                            ],
                        ),
                    ),
                    str_entry("role"@, "assistant"@),
                ],
            )
        } else {
            JsonModel::Object(seq![str_entry("content"@, m.content@), str_entry("role"@, "assistant"@)])
        }
    } else if m.role == MessageRole::Tool {
        JsonModel::Object(
            seq![
                (
                    "content"@,
                    JsonModel::Array(
                        seq![
                            JsonModel::Object(
                                seq![
                                    str_entry("content"@, m.content@),
                                    (
                                        "tool_use_id"@,
                                        match m.tool_call_id {
                                            Some(id) => JsonModel::Str(id@),
                                            None => JsonModel::Null,
                                        },
                                    ),
                                    str_entry("type"@, "tool_result"@),
                                ],
                            ),
                        ],
                    ),
                ),
                str_entry("role"@, "user"@),
            ],
        )
    } else {
        JsonModel::Object(seq![str_entry("content"@, m.content@), str_entry("role"@, "user"@)])
    }
}

/// The messages of an Anthropic request: every message but the system ones, in order.
pub open spec fn anthropic_messages(ms: Seq<ChatMessage>) -> Seq<JsonModel>
    decreases ms.len(),
{
    if ms.len() == 0 {
        Seq::empty()
    } else {
        anthropic_messages(ms.drop_last()) + if ms.last().role == MessageRole::System {
            Seq::<JsonModel>::empty()
        } else {
            seq![anthropic_message(ms.last())]
        }
    }
}

/// The body of a messages request; the system prompt is sent only when it is not empty, the
/// temperature only when one is given.
pub open spec fn anthropic_body(
    model: Seq<char>,
    ms: Seq<ChatMessage>,
    max_tokens: u32,
    temperature: Option<Seq<char>>,
    stream: bool,
) -> JsonModel {
    let head = seq![
        ("max_tokens"@, JsonModel::Number(decimal(max_tokens as nat))),
        ("messages"@, JsonModel::Array(anthropic_messages(ms))),
        str_entry("model"@, model),
        ("stream"@, JsonModel::Bool(stream)),
    ];
    let system = if anthropic_system(ms).len() > 0 {
        seq![str_entry("system"@, anthropic_system(ms))]
    } else {
        Seq::empty()
    };
    let temp = match temperature {
        Some(t) => seq![("temperature"@, JsonModel::Number(t))],
        None => Seq::empty(),
    };
    JsonModel::Object(head + system + temp)
}

fn str_pair(key: &str, value: &str) -> (e: (String, JsonValue))
    ensures
        e.0@ == key@,
        json_model(e.1) == JsonModel::Str(value@),
{
    (key.to_string(), jstring(value))
}

fn openai_message_json(m: &ChatMessage) -> (v: JsonValue)
    ensures
        json_model(v) == openai_message(*m),
{
    let mut entries: Vec<(String, JsonValue)> = Vec::new();
    entries.push(str_pair("content", m.content.as_str()));
    entries.push(str_pair("role", m.role.as_str()));
    match &m.tool_call_id {
        Some(id) => {
            entries.push(str_pair("tool_call_id", id.as_str()));
        },
        None => {},
    }
    let v = jobject(entries);
    proof {
        reveal_strlit("content");
        reveal_strlit("role");
        reveal_strlit("tool_call_id");
        assert(entry_models(entries@) =~= match openai_message(*m) {
            JsonModel::Object(s) => s,
            _ => Seq::empty(),
        });
    }
    v
}

/// The messages of a chat completions request.
pub fn openai_wire_messages(messages: &[ChatMessage]) -> (r: Vec<JsonValue>)
    ensures
        models(r@) == openai_messages(messages@),
{
    let mut r: Vec<JsonValue> = Vec::new();
    let mut i: usize = 0;
    while i < messages.len()
        invariant
            i <= messages@.len(),
            r@.len() == i,
            models(r@) == openai_messages(messages@.take(i as int)),
        decreases messages.len() - i,
    {
        let v = openai_message_json(&messages[i]);
        let ghost before = r@;
        let ghost gv = v;
        r.push(v);
        proof {
            assert forall|j: int| 0 <= j < i + 1 implies #[trigger] models(r@)[j]
                == openai_messages(messages@.take(i + 1))[j] by {
                if j < i {
                    assert(r@[j] == before[j]);
                    assert(models(before)[j] == openai_messages(messages@.take(i as int))[j]);
                } else {
                    assert(r@[j] == gv);
                }
            }
            assert(models(r@) =~= openai_messages(messages@.take(i + 1)));
        }
        i = i + 1;
    }
    assert(messages@.take(messages@.len() as int) =~= messages@);
    r
}

fn number_entry(key: &str, n: u32) -> (e: (String, JsonValue))
    ensures
        e.0@ == key@,
        json_model(e.1) == JsonModel::Number(decimal(n as nat)),
{
    (key.to_string(), JsonValue::Number(u64_to_decimal(n as u64)))
}

/// The body of a chat completions request for a model, with a token limit and a temperature,
/// streamed or not.
pub fn openai_request_body(
    model: &str,
    messages: &[ChatMessage],
    max_tokens: u32,
    temperature: Option<&str>,
    stream: bool,
) -> (v: JsonValue)
    ensures
        json_model(v) == openai_body(model@, messages@, max_tokens, opt_text(temperature), stream),
{
    let wire = openai_wire_messages(messages);
    let mut entries: Vec<(String, JsonValue)> = Vec::new();
    entries.push(number_entry("max_tokens", max_tokens));
    let arr = jarray(wire);
    entries.push(("messages".to_string(), arr));
    entries.push(str_pair("model", model));
    entries.push(("stream".to_string(), JsonValue::Bool(stream)));
    if stream {
        let mut opts: Vec<(String, JsonValue)> = Vec::new();
        opts.push(("include_usage".to_string(), JsonValue::Bool(true)));
        let o = jobject(opts);
        proof {
            reveal_strlit("include_usage");
            assert(entry_models(opts@) =~= seq![("include_usage"@, JsonModel::Bool(true))]);
        }
        entries.push(("stream_options".to_string(), o));
    }
    let t = match temperature {
        Some(t) => t,
        None => DEFAULT_TEMPERATURE,
    };
    entries.push(("temperature".to_string(), JsonValue::Number(t.to_string())));
    let v = jobject(entries);
    proof {
        reveal_strlit("max_tokens");
        reveal_strlit("messages");
        reveal_strlit("model");
        reveal_strlit("stream");
        reveal_strlit("stream_options");
        reveal_strlit("include_usage");
        reveal_strlit("temperature");
        assert(entry_models(entries@) =~= match openai_body(
            model@,
            messages@,
            max_tokens,
            opt_text(temperature),
            stream,
        ) {
            JsonModel::Object(s) => s,
            _ => Seq::empty(),
        });
    }
    v
}

fn anthropic_message_json(m: &ChatMessage) -> (v: JsonValue)
    requires
        m.role != MessageRole::System,
    ensures
        json_model(v) == anthropic_message(*m),
{
    proof {
        reveal_strlit("content");
        reveal_strlit("role");
        reveal_strlit("text");
        reveal_strlit("type");
        reveal_strlit("tool_use_id");
    }
    let mut entries: Vec<(String, JsonValue)> = Vec::new();
    if m.role == MessageRole::Assistant {
        if m.content.as_str().unicode_len() > 0 {
            let mut block: Vec<(String, JsonValue)> = Vec::new();
            block.push(str_pair("text", m.content.as_str()));
            block.push(str_pair("type", "text"));
            let b = jobject(block);
            let mut blocks: Vec<JsonValue> = Vec::new();
            blocks.push(b);
            let arr = jarray(blocks);
            entries.push(("content".to_string(), arr));
            proof {
                assert(entry_models(block@) =~= seq![str_entry("text"@, m.content@), str_entry("type"@, "text"@)]);
                assert(models(blocks@) =~= seq![json_model(b)]);
            }
        } else {
            entries.push(str_pair("content", m.content.as_str()));
        }
        entries.push(str_pair("role", "assistant"));
    } else if m.role == MessageRole::Tool {
        let mut block: Vec<(String, JsonValue)> = Vec::new();
        block.push(str_pair("content", m.content.as_str()));
        let id = match &m.tool_call_id {
            Some(t) => jstring(t.as_str()),
            None => JsonValue::Null,
        };
        block.push(("tool_use_id".to_string(), id));
        block.push(str_pair("type", "tool_result"));
        let b = jobject(block);
        proof {
            assert(entry_models(block@) =~= seq![
                str_entry("content"@, m.content@),
                (
                    "tool_use_id"@,
                    match m.tool_call_id {
                        Some(t) => JsonModel::Str(t@),
                        None => JsonModel::Null,
                    },
                ),
                str_entry("type"@, "tool_result"@),
            ]);
        }
        let mut blocks: Vec<JsonValue> = Vec::new();
        blocks.push(b);
        let arr = jarray(blocks);
        entries.push(("content".to_string(), arr));
        entries.push(str_pair("role", "user"));
        proof {
            assert(models(blocks@) =~= seq![json_model(b)]);
        }
    } else {
        entries.push(str_pair("content", m.content.as_str()));
        entries.push(str_pair("role", "user"));
    }
    let v = jobject(entries);
    proof {
        assert(entry_models(entries@) =~= match anthropic_message(*m) {
            JsonModel::Object(s) => s,
            _ => Seq::empty(),
        });
    }
    v
}

/// The system prompt and the messages of an Anthropic request.
pub fn anthropic_wire_messages(messages: &[ChatMessage]) -> (r: (String, Vec<JsonValue>))
    ensures
        r.0@ == anthropic_system(messages@),
        models(r.1@) == anthropic_messages(messages@),
{
    let mut system: Vec<char> = Vec::new();
    let mut out: Vec<JsonValue> = Vec::new();
    let mut i: usize = 0;
    while i < messages.len()
        invariant
            i <= messages@.len(),
            system@ == anthropic_system(messages@.take(i as int)),
            models(out@) == anthropic_messages(messages@.take(i as int)),
        decreases messages.len() - i,
    {
        let m = &messages[i];
        proof {
            assert(messages@.take(i + 1).drop_last() =~= messages@.take(i as int));
            assert(messages@.take(i + 1).last() == messages@[i as int]);
        }
        if m.role == MessageRole::System {
            if system.len() > 0 {
                system.push('\n');
            }
            extend_str(&mut system, m.content.as_str());
            proof {
                reveal_strlit("\n");
                assert(system@ =~= anthropic_system(messages@.take(i + 1)));
                assert(models(out@) =~= anthropic_messages(messages@.take(i + 1)));
            }
        } else {
            let v = anthropic_message_json(m);
            out.push(v);
            proof {
                assert(models(out@) =~= anthropic_messages(messages@.take(i + 1)));
            }
        }
        i = i + 1;
    }
    assert(messages@.take(messages@.len() as int) =~= messages@);
    (from_chars(system.as_slice()), out)
}

/// The body of a messages request for a model, with a token limit, streamed or not.
pub fn anthropic_request_body(
    model: &str,
    messages: &[ChatMessage],
    max_tokens: u32,
    temperature: Option<&str>,
    stream: bool,
) -> (v: JsonValue)
    ensures
        json_model(v) == anthropic_body(model@, messages@, max_tokens, opt_text(temperature), stream),
{
    let (system, wire) = anthropic_wire_messages(messages);
    let mut entries: Vec<(String, JsonValue)> = Vec::new();
    entries.push(number_entry("max_tokens", max_tokens));
    let arr = jarray(wire);
    entries.push(("messages".to_string(), arr));
    entries.push(str_pair("model", model));
    entries.push(("stream".to_string(), JsonValue::Bool(stream)));
    if system.as_str().unicode_len() > 0 {
        entries.push(str_pair("system", system.as_str()));
    }
    match temperature {
        Some(t) => {
            entries.push(("temperature".to_string(), JsonValue::Number(t.to_string())));
        },
        None => {},
    }
    let v = jobject(entries);
    proof {
        reveal_strlit("max_tokens");
        reveal_strlit("messages");
        reveal_strlit("model");
        reveal_strlit("stream");
        reveal_strlit("system");
        reveal_strlit("temperature");
        assert(entry_models(entries@) =~= match anthropic_body(
            model@,
            messages@,
            max_tokens,
            opt_text(temperature),
            stream,
        ) {
            JsonModel::Object(s) => s,
            _ => Seq::empty(),
        });
    }
    v
}

/// A message as role and content alone.
pub open spec fn plain_message(m: ChatMessage) -> JsonModel {
    JsonModel::Object(seq![str_entry("content"@, m.content@), str_entry("role"@, m.role.spec_name())])
}

pub open spec fn plain_messages(ms: Seq<ChatMessage>) -> Seq<JsonModel> {
    Seq::new(ms.len(), |i: int| plain_message(ms[i]))
}

/// The body of a one-shot chat request of the MiniMax API and of the OpenRouter gateway: model,
/// messages (role and content), token limit and temperature (the default one when none is
/// given).
pub open spec fn plain_chat_body(
    model: Seq<char>,
    ms: Seq<ChatMessage>,
    max_tokens: u32,
    temperature: Option<Seq<char>>,
) -> JsonModel {
    JsonModel::Object(
        seq![
            ("max_tokens"@, JsonModel::Number(decimal(max_tokens as nat))),
            ("messages"@, JsonModel::Array(plain_messages(ms))),
            str_entry("model"@, model),
            (
                "temperature"@,
                JsonModel::Number(
                    match temperature {
                        Some(t) => t,
                        None => DEFAULT_TEMPERATURE@,
                    },
                ),
            ),
        ],
    )
}

/// The body of an Ollama chat request: never streamed; the temperature when one is given and
/// the token limit, as `options.num_predict`, when one is given.
pub open spec fn ollama_body(
    model: Seq<char>,
    ms: Seq<ChatMessage>,
    max_tokens: Option<u32>,
    temperature: Option<Seq<char>>,
) -> JsonModel {
    let head = seq![("messages"@, JsonModel::Array(plain_messages(ms))), str_entry("model"@, model)];
    let options = match max_tokens {
        Some(n) => seq![
            (
                "options"@,
                JsonModel::Object(seq![("num_predict"@, JsonModel::Number(decimal(n as nat)))]),
            ),
        ],
        None => Seq::empty(),
    };
    let temp = match temperature {
        Some(t) => seq![("temperature"@, JsonModel::Number(t))],
        None => Seq::empty(),
    };
    JsonModel::Object(head + options + seq![("stream"@, JsonModel::Bool(false))] + temp)
}

fn plain_messages_json(messages: &[ChatMessage]) -> (r: Vec<JsonValue>)
    ensures
        models(r@) == plain_messages(messages@),
{
    let mut r: Vec<JsonValue> = Vec::new();
    let mut i: usize = 0;
    while i < messages.len()
        invariant
            i <= messages@.len(),
            r@.len() == i,
            models(r@) == plain_messages(messages@.take(i as int)),
        decreases messages.len() - i,
    {
        let m = &messages[i];
        let mut entries: Vec<(String, JsonValue)> = Vec::new();
        entries.push(str_pair("content", m.content.as_str()));
        entries.push(str_pair("role", m.role.as_str()));
        let v = jobject(entries);
        proof {
            reveal_strlit("content");
            reveal_strlit("role");
            assert(entry_models(entries@) =~= seq![
                str_entry("content"@, m.content@),
                str_entry("role"@, m.role.spec_name()),
            ]);
        }
        let ghost before = r@;
        let ghost gv = v;
        r.push(v);
        proof {
            assert forall|j: int| 0 <= j < i + 1 implies #[trigger] models(r@)[j]
                == plain_messages(messages@.take(i + 1))[j] by {
                if j < i {
                    assert(r@[j] == before[j]);
                    assert(models(before)[j] == plain_messages(messages@.take(i as int))[j]);
                } else {
                    assert(r@[j] == gv);
                }
            }
            assert(models(r@) =~= plain_messages(messages@.take(i + 1)));
        }
        i = i + 1;
    }
    assert(messages@.take(messages@.len() as int) =~= messages@);
    r
}

/// The body of a one-shot MiniMax or OpenRouter chat request.
pub fn plain_chat_request_body(
    model: &str,
    messages: &[ChatMessage],
    max_tokens: u32,
    temperature: Option<&str>,
) -> (v: JsonValue)
    ensures
        json_model(v) == plain_chat_body(model@, messages@, max_tokens, opt_text(temperature)),
{
    let wire = plain_messages_json(messages);
    let mut entries: Vec<(String, JsonValue)> = Vec::new();
    entries.push(number_entry("max_tokens", max_tokens));
    let arr = jarray(wire);
    entries.push(("messages".to_string(), arr));
    entries.push(str_pair("model", model));
    let t = match temperature {
        Some(t) => t,
        None => DEFAULT_TEMPERATURE,
    };
    entries.push(("temperature".to_string(), JsonValue::Number(t.to_string())));
    let v = jobject(entries);
    proof {
        reveal_strlit("max_tokens");
        reveal_strlit("messages");
        reveal_strlit("model");
        reveal_strlit("temperature");
        assert(entry_models(entries@) =~= match plain_chat_body(
            model@,
            messages@,
            max_tokens,
            opt_text(temperature),
        ) {
            JsonModel::Object(s) => s,
            _ => Seq::empty(),
        });
    }
    v
}

/// The body of an Ollama chat request.
pub fn ollama_request_body(
    model: &str,
    messages: &[ChatMessage],
    max_tokens: Option<u32>,
    temperature: Option<&str>,
) -> (v: JsonValue)
    ensures
        json_model(v) == ollama_body(model@, messages@, max_tokens, opt_text(temperature)),
{
    let wire = plain_messages_json(messages);
    let mut entries: Vec<(String, JsonValue)> = Vec::new();
    let arr = jarray(wire);
    entries.push(("messages".to_string(), arr));
    entries.push(str_pair("model", model));
    match max_tokens {
        Some(n) => {
            let mut opts: Vec<(String, JsonValue)> = Vec::new();
            opts.push(number_entry("num_predict", n));
            let o = jobject(opts);
            proof {
                reveal_strlit("num_predict");
                assert(entry_models(opts@) =~= seq![
                    ("num_predict"@, JsonModel::Number(decimal(n as nat))),
                ]);
            }
            entries.push(("options".to_string(), o));
        },
        None => {},
    }
    entries.push(("stream".to_string(), JsonValue::Bool(false)));
    match temperature {
        Some(t) => {
            entries.push(("temperature".to_string(), JsonValue::Number(t.to_string())));
        },
        None => {},
    }
    let v = jobject(entries);
    proof {
        reveal_strlit("messages");
        reveal_strlit("model");
        reveal_strlit("options");
        reveal_strlit("stream");
        reveal_strlit("temperature");
        assert(entry_models(entries@) =~= match ollama_body(
            model@,
            messages@,
            max_tokens,
            opt_text(temperature),
        ) {
            JsonModel::Object(s) => s,
            _ => Seq::empty(),
        });
    }
    v
}

/// What a non-streamed reply carries: the text, the model that answered, and the token counts.
#[derive(Debug, Clone)]
pub struct ChatReply {
    pub content: String,
    pub model: String,
    pub usage: Usage,
}

/// `v[0]`: the first element of an array, or `null`.
pub open spec fn json_first(v: JsonValue) -> JsonValue {
    match json_array(v) {
        Some(a) => if a.len() > 0 {
            a[0]
        } else {
            JsonValue::Null
        },
        None => JsonValue::Null,
    }
}

/// The string under `key`, or a fallback.
pub open spec fn str_or(v: JsonValue, fallback: Seq<char>) -> Seq<char> {
    match json_str(v) {
        Some(s) => s,
        None => fallback,
    }
}

/// A count read as `as_u64().unwrap_or(0) as u32` does: the low 32 bits.
pub open spec fn count32(v: JsonValue) -> u32 {
    json_u64_or_zero(v) as u32
}

fn first_of(v: &JsonValue) -> (r: &JsonValue)
    ensures
        *r == json_first(*v),
{
    match v {
        JsonValue::Array(a) => {
            if a.len() > 0 {
                &a[0]
            } else {
                &JsonValue::Null
            }
        },
        _ => &JsonValue::Null,
    }
}

fn lookup<'a>(v: &'a JsonValue, key: &str) -> (r: &'a JsonValue)
    ensures
        *r == json_index(*v, key@),
{
    match v.get(key) {
        Some(x) => x,
        None => &JsonValue::Null,
    }
}

fn str_or_exec(v: &JsonValue, fallback: &str) -> (s: String)
    ensures
        s@ == str_or(*v, fallback@),
{
    match v.as_str() {
        Some(t) => t.clone(),
        None => fallback.to_string(),
    }
}

fn count32_exec(v: &JsonValue) -> (n: u32)
    ensures
        n == count32(*v),
{
    let x = match v.as_u64() {
        Some(n) => n,
        None => 0,
    };
    x as u32
}

/// A chat completions reply: the first choice's message text (empty when absent), the model
/// named in the reply or else `default_model`, and the usage counts.
pub fn openai_reply(raw: &JsonValue, default_model: &str) -> (r: ChatReply)
    ensures
        r.content@ == str_or(
            json_index(json_index(json_first(json_index(*raw, "choices"@)), "message"@), "content"@),
            Seq::empty(),
        ),
        r.model@ == str_or(json_index(*raw, "model"@), default_model@),
        r.usage.prompt_tokens == count32(json_index(json_index(*raw, "usage"@), "prompt_tokens"@)),
        r.usage.completion_tokens == count32(
            json_index(json_index(*raw, "usage"@), "completion_tokens"@),
        ),
        r.usage.total_tokens == count32(json_index(json_index(*raw, "usage"@), "total_tokens"@)),
{
    let choice = first_of(lookup(raw, "choices"));
    let content = str_or_exec(lookup(lookup(choice, "message"), "content"), "");
    let model = str_or_exec(lookup(raw, "model"), default_model);
    let u = lookup(raw, "usage");
    let usage = Usage {
        prompt_tokens: count32_exec(lookup(u, "prompt_tokens")),
        completion_tokens: count32_exec(lookup(u, "completion_tokens")),
        total_tokens: count32_exec(lookup(u, "total_tokens")),
    };
    proof {
        reveal_strlit("");
    }
    ChatReply { content, model, usage }
}

/// A messages reply: the first content block's text (empty when absent), the model named in
/// the reply or else `default_model`, and the usage counts, the total being the sum of input
/// and output tokens; `None` where that sum does not fit in 32 bits.
pub fn anthropic_reply(raw: &JsonValue, default_model: &str) -> (r: Option<ChatReply>)
    ensures
        ({
            let input = count32(json_index(json_index(*raw, "usage"@), "input_tokens"@));
            let output = count32(json_index(json_index(*raw, "usage"@), "output_tokens"@));
            match r {
                None => input + output > u32::MAX,
                Some(c) => {
                    &&& input + output <= u32::MAX
                    &&& c.content@ == str_or(
                        json_index(json_first(json_index(*raw, "content"@)), "text"@),
                        Seq::empty(),
                    )
                    &&& c.model@ == str_or(json_index(*raw, "model"@), default_model@)
                    &&& c.usage.prompt_tokens == input
                    &&& c.usage.completion_tokens == output
                    &&& c.usage.total_tokens == input + output
                },
            }
        }),
{
    let u = lookup(raw, "usage");
    let input = count32_exec(lookup(u, "input_tokens"));
    let output = count32_exec(lookup(u, "output_tokens"));
    let total = match input.checked_add(output) {
        Some(t) => t,
        None => {
            return None;
        },
    };
    let block = first_of(lookup(raw, "content"));
    let content = str_or_exec(lookup(block, "text"), "");
    let model = str_or_exec(lookup(raw, "model"), default_model);
    proof {
        reveal_strlit("");
    }
    Some(
        ChatReply {
            content,
            model,
            usage: Usage { prompt_tokens: input, completion_tokens: output, total_tokens: total },
        },
    )
}

/// A MiniMax reply: the text of the first message of the first choice (empty when absent), the
/// model named in the reply or else `default_model`, and the usage counts.
pub fn minimax_reply(raw: &JsonValue, default_model: &str) -> (r: ChatReply)
    ensures
        r.content@ == str_or(
            json_index(json_first(json_index(json_first(json_index(*raw, "choices"@)), "messages"@)), "text"@),
            Seq::empty(),
        ),
        r.model@ == str_or(json_index(*raw, "model"@), default_model@),
        r.usage.prompt_tokens == count32(json_index(json_index(*raw, "usage"@), "prompt_tokens"@)),
        r.usage.completion_tokens == count32(
            json_index(json_index(*raw, "usage"@), "completion_tokens"@),
        ),
        r.usage.total_tokens == count32(json_index(json_index(*raw, "usage"@), "total_tokens"@)),
{
    let choice = first_of(lookup(raw, "choices"));
    let first = first_of(lookup(choice, "messages"));
    let content = str_or_exec(lookup(first, "text"), "");
    let model = str_or_exec(lookup(raw, "model"), default_model);
    let u = lookup(raw, "usage");
    let usage = Usage {
        prompt_tokens: count32_exec(lookup(u, "prompt_tokens")),
        completion_tokens: count32_exec(lookup(u, "completion_tokens")),
        total_tokens: count32_exec(lookup(u, "total_tokens")),
    };
    proof {
        reveal_strlit("");
    }
    ChatReply { content, model, usage }
}

/// An Ollama reply: the message text (empty when absent), the model named in the reply or else
/// `default_model`, and the evaluation counts, the total being their sum; `None` where that
/// sum does not fit in 32 bits.
pub fn ollama_reply(raw: &JsonValue, default_model: &str) -> (r: Option<ChatReply>)
    ensures
        ({
            let input = count32(json_index(*raw, "prompt_eval_count"@));
            let output = count32(json_index(*raw, "eval_count"@));
            match r {
                None => input + output > u32::MAX,
                Some(c) => {
                    &&& input + output <= u32::MAX
                    &&& c.content@ == str_or(
                        json_index(json_index(*raw, "message"@), "content"@),
                        Seq::empty(),
                    )
                    &&& c.model@ == str_or(json_index(*raw, "model"@), default_model@)
                    &&& c.usage.prompt_tokens == input
                    &&& c.usage.completion_tokens == output
                    &&& c.usage.total_tokens == input + output
                },
            }
        }),
{
    let input = count32_exec(lookup(raw, "prompt_eval_count"));
    let output = count32_exec(lookup(raw, "eval_count"));
    let total = match input.checked_add(output) {
        Some(t) => t,
        None => {
            return None;
        },
    };
    let content = str_or_exec(lookup(lookup(raw, "message"), "content"), "");
    let model = str_or_exec(lookup(raw, "model"), default_model);
    proof {
        reveal_strlit("");
    }
    Some(
        ChatReply {
            content,
            model,
            usage: Usage { prompt_tokens: input, completion_tokens: output, total_tokens: total },
        },
    )
}

} // verus!
