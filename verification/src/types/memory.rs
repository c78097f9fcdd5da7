//! Memory provider trait: pluggable cross-session memory back ends.

use crate::json::{entry_models, jobject, json_text, jstring, to_json_string, JsonModel, JsonValue};
use vstd::prelude::*;

verus! {

#[verifier::external_type_specification]
#[verifier::external_body]
pub struct ExJsonValue(serde_json::Value);

/// `Clone` of `serde_json::Value`, which is derived: the copy holds the same JSON value.
pub assume_specification[ <serde_json::Value as Clone>::clone ](v: &serde_json::Value) -> (r:
    serde_json::Value)
    ensures
        r == *v,
;

/// Tool schema for a memory provider tool.
#[derive(Debug, Clone)]
pub struct ToolSchema {
    pub name: String,
    pub description: String,
    pub parameters: serde_json::Value,
}

/// The JSON text of an object holding one string field `error`: `{"error":<message>}`.
pub open spec fn error_reply(message: Seq<char>) -> Seq<char> {
    json_text(JsonModel::Object(seq![("error"@, JsonModel::Str(message))]))
}

/// `serde_json::json!({"error": message}).to_string()`.
pub fn error_json(message: &str) -> (r: String)
    ensures
        r@ == error_reply(message@),
{
    let mut entries: Vec<(String, JsonValue)> = Vec::new();
    entries.push(("error".to_string(), jstring(message)));
    let v = jobject(entries);
    assert(entry_models(entries@) =~= seq![("error"@, JsonModel::Str(message@))]);
    to_json_string(&v)
}

/// The reply of a provider that has no tools to a tool call:
/// `{"error": "<provider> does not implement tool calls"}`.
pub fn unsupported_tool_call(provider: &str) -> (r: String)
    ensures
        r@ == error_reply(provider@ + " does not implement tool calls"@),
{
    let mut message = provider.to_string();
    message.append(" does not implement tool calls");
    proof {
        reveal_strlit(" does not implement tool calls");
    }
    error_json(message.as_str())
}

/// A memory back end. Providers implement `name`, `is_available` and the hooks that answer
/// with a value; the hooks that only notify the provider do nothing by default.
///
/// Each answering hook comes with a spec function that says which answers the provider may
/// give (by default any). A provider verified with the library states its answers exactly
/// there; the manager's contracts speak of the provider's answers through them.
pub trait MemoryProvider {
    /// Short identifier, e.g. "builtin", "holographic", "byterover".
    fn name(&self) -> &str;

    /// True if this provider is configured and ready.
    fn is_available(&self) -> bool;

    /// Initialize for a session.
    fn initialize(&self, _session_id: &str, _aiclaw_home: &str) {
    }

    /// The system prompt blocks the provider may give.
    open spec fn gives_prompt_block(&self, block: Seq<char>) -> bool {
        true
    }

    /// Static text injected into the system prompt.
    fn system_prompt_block(&self) -> (r: String)
        ensures
            self.gives_prompt_block(r@),
    ;

    /// The context the provider may recall for a query.
    open spec fn gives_prefetch(&self, query: Seq<char>, context: Seq<char>) -> bool {
        true
    }

    /// Context to inject before a model call.
    fn prefetch(&self, query: &str) -> (r: String)
        ensures
            self.gives_prefetch(query@, r@),
    ;

    /// Persist a finished exchange.
    fn sync_turn(&self, _user_content: &str, _assistant_content: &str) {
    }

    /// Precompute the next turn's context.
    fn queue_prefetch(&self, _query: &str) {
    }

    /// Turn-start hook.
    fn on_turn_start(&self, _turn_number: usize, _message: &str) {
    }

    /// Session-end hook.
    fn on_session_end(&self, _messages: &[(String, String)]) {
    }

    /// The text the provider may add to a summary of these messages.
    open spec fn gives_pre_compress(&self, messages: Seq<(String, String)>, text: Seq<char>) -> bool {
        true
    }

    /// Text to include in a summary before context compression.
    fn on_pre_compress(&self, messages: &[(String, String)]) -> (r: String)
        ensures
            self.gives_pre_compress(messages@, r@),
    ;

    /// The tool schemas the provider may declare.
    open spec fn gives_tool_schemas(&self, schemas: Seq<ToolSchema>) -> bool {
        true
    }

    /// Tool schemas exposed by this provider.
    fn get_tool_schemas(&self) -> (r: Vec<ToolSchema>)
        ensures
            self.gives_tool_schemas(r@),
    ;

    /// The replies the provider may give to a call of a tool.
    open spec fn gives_tool_reply(&self, name: Seq<char>, args: serde_json::Value, reply: Seq<char>) -> bool {
        true
    }

    /// Handle a tool call; a provider without tools answers with `unsupported_tool_call`.
    fn handle_tool_call(&self, name: &str, args: &serde_json::Value) -> (r: String)
        ensures
            self.gives_tool_reply(name@, *args, r@),
    ;

    fn shutdown(&self) {
    }
}

} // verus!
