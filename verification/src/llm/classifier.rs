//! Intent classification by the model, with a keyword fallback.

use crate::agent::planner::{braced_object, fenced_block, fenced_block_chars, opt_chars};
use crate::text::{
    contains, contains_chars, find_chars, find_close_index, from_chars,
    lemma_find_from_props, lowercase, slice_chars, starts_with, starts_with_chars, str_contains,
    to_chars, to_lowercase, trim, trim_chars,
};
use crate::agent::context::copy_opt_string;
use crate::json::{json_get, parse_json, parsed_json, str_view, JsonValue};
use crate::agent::context::{ChatMessage, MessageRole};
use crate::llm::traits::{IntentEntities, INTENT_CLASSIFICATION_PROMPT};
use vstd::prelude::*;

verus! {

/// JSON found in a classification answer: a fenced block, the whole answer when it starts with
/// `{`, or else the first balanced object.
pub open spec fn spec_extract_json_from_response(content: Seq<char>) -> Option<Seq<char>> {
    let c = trim(content);
    if contains(c, "```json"@) {
        fenced_block(c, "```json"@)
    } else if contains(c, "```"@) {
        fenced_block(c, "```"@)
    } else if starts_with(c, "{"@) {
        Some(c)
    } else {
        braced_object(c)
    }
}

/// The intent a keyword fallback assigns to a lower-cased message.
pub open spec fn spec_fallback_intent(m: Seq<char>) -> Seq<char> {
    if contains(m, "日志"@) || contains(m, "log"@) || contains(m, "tail"@) {
        "Logs"@
    } else if contains(m, "指标"@) || contains(m, "metric"@) || contains(m, "监控"@) || contains(
        m,
        "promql"@,
    ) {
        "Metrics"@
    } else if contains(m, "健康"@) || contains(m, "health"@) || contains(m, "状态"@) {
        "Health"@
    } else if contains(m, "排查"@) || contains(m, "debug"@) || contains(m, "问题"@) || contains(
        m,
        "为什么"@,
    ) {
        "Debug"@
    } else if contains(m, "查询"@) || contains(m, "query"@) || contains(m, "搜索"@) {
        "Query"@
    } else if contains(m, "扩缩"@) || contains(m, "scale"@) {
        "Scale"@
    } else if contains(m, "部署"@) || contains(m, "deploy"@) || contains(m, "发布"@) {
        "Deploy"@
    } else {
        "Unknown"@
    }
}

/// The sampling temperature of a classification request.
pub const CLASSIFICATION_TEMPERATURE: &'static str = "0.1";

/// The token limit of a classification request.
pub const CLASSIFICATION_MAX_TOKENS: u32 = 512;

/// The conversation that asks the model to classify a message: the classification
/// instructions, then the message itself.
pub fn classification_request(message: &str) -> (msgs: Vec<ChatMessage>)
    ensures
        msgs@.len() == 2,
        msgs@[0].role == MessageRole::System,
        msgs@[0].content@ == INTENT_CLASSIFICATION_PROMPT@,
        msgs@[1].role == MessageRole::User,
        msgs@[1].content@ == message@,
{
    let mut msgs: Vec<ChatMessage> = Vec::new();
    msgs.push(ChatMessage::system(INTENT_CLASSIFICATION_PROMPT));
    msgs.push(ChatMessage::user(message));
    msgs
}

/// Model-based intent classifier settings.
#[derive(Debug, Clone, Copy)]
pub struct IntentClassifierImpl {
    pub fallback_enabled: bool,
}

impl IntentClassifierImpl {
    /// The keyword fallback is enabled by default.
    pub fn new() -> (c: IntentClassifierImpl)
        ensures
            c.fallback_enabled,
    {
        IntentClassifierImpl { fallback_enabled: true }
    }

    pub fn with_fallback(self, enabled: bool) -> (c: IntentClassifierImpl)
        ensures
            c.fallback_enabled == enabled,
    {
        IntentClassifierImpl { fallback_enabled: enabled }
    }

    /// Extracts the JSON of a classification answer.
    pub fn extract_json_from_response(content: &str) -> (out: Option<String>)
        ensures
            out matches Some(s) ==> spec_extract_json_from_response(content@) == Some(s@),
            out is None ==> spec_extract_json_from_response(content@) is None,
    {
        let cv = to_chars(content);
        let c = trim_chars(cv.as_slice());
        let json_fence = to_chars("```json");
        let fence = to_chars("```");
        let brace = to_chars("{");
        let found = if contains_chars(c.as_slice(), json_fence.as_slice()) {
            fenced_block_chars(c.as_slice(), json_fence.as_slice())
        } else if contains_chars(c.as_slice(), fence.as_slice()) {
            fenced_block_chars(c.as_slice(), fence.as_slice())
        } else if starts_with_chars(c.as_slice(), brace.as_slice()) {
            return Some(from_chars(c.as_slice()));
        } else {
            proof {
                lemma_find_from_props(c@, brace@, 0);
                reveal_strlit("{");
            }
            match find_chars(c.as_slice(), brace.as_slice(), 0) {
                Some(s) => {
                    let rem = slice_chars(c.as_slice(), s, c.len());
                    assert(rem@ == c@.skip(s as int));
                    assert(rem@[0] == c@.subrange(s as int, s + 1)[0]);
                    match find_close_index(rem.as_slice()) {
                        Some(k) => {
                            let obj = slice_chars(rem.as_slice(), 0, k + 1);
                            assert(obj@ == rem@.take(k + 1));
                            return Some(from_chars(obj.as_slice()));
                        },
                        None => None,
                    }
                },
                None => None,
            }
        };
        match found {
            Some(v) => Some(from_chars(v.as_slice())),
            None => None,
        }
    }

    /// The intent type name the keyword fallback assigns (`Unknown` when no keyword matches).
    pub fn fallback_intent_type(message: &str) -> (r: &'static str)
        ensures
            r@ == spec_fallback_intent(lowercase(message@)),
    {
        let lower = to_lowercase(message);
        let m = lower.as_str();
        if str_contains(m, "日志") || str_contains(m, "log") || str_contains(m, "tail") {
            "Logs"
        } else if str_contains(m, "指标") || str_contains(m, "metric") || str_contains(m, "监控")
            || str_contains(m, "promql") {
            "Metrics"
        } else if str_contains(m, "健康") || str_contains(m, "health") || str_contains(m, "状态") {
            "Health"
        } else if str_contains(m, "排查") || str_contains(m, "debug") || str_contains(m, "问题")
            || str_contains(m, "为什么") {
            "Debug"
        } else if str_contains(m, "查询") || str_contains(m, "query") || str_contains(m, "搜索") {
            "Query"
        } else if str_contains(m, "扩缩") || str_contains(m, "scale") {
            "Scale"
        } else if str_contains(m, "部署") || str_contains(m, "deploy") || str_contains(m, "发布") {
            "Deploy"
        } else {
            "Unknown"
        }
    }
}

} // verus!

verus! {

/// How sure a classification is: the number the model gave, as written, or a fixed fallback
/// score in tenths.
#[derive(Debug, Clone)]
pub enum Confidence {
    Stated(String),
    Tenths(u32),
}

/// A classification: the intent name, how sure, the entities, and why.
#[derive(Debug, Clone)]
pub struct IntentClassification {
    pub intent_type: String,
    pub confidence: Confidence,
    pub entities: IntentEntities,
    pub reasoning: Option<String>,
}

/// An optional string field: absent or `null` is none, a string is itself, anything else is
/// malformed.
pub open spec fn opt_string(v: Option<JsonValue>) -> Option<Option<Seq<char>>> {
    match v {
        None => Some(None),
        Some(JsonValue::Null) => Some(None),
        Some(JsonValue::Str(s)) => Some(Some(s@)),
        Some(_) => None,
    }
}

/// The names of the entity fields, in declaration order.
pub open spec fn entity_keys() -> Seq<Seq<char>> {
    seq![
        "pod_name"@,
        "namespace"@,
        "cluster"@,
        "service_name"@,
        "deployment_name"@,
        "node_name"@,
        "query"@,
        "domain"@,
        "virtualization"@,
        "kubernetes_resource"@,
        "resource_state"@,
        "error_keyword"@,
    ]
}

/// The entity fields of an answer, in declaration order: from an object by name, or from an
/// array by position (missing trailing fields are none); `None` when one is malformed.
pub open spec fn raw_entity_fields(v: JsonValue) -> Option<Seq<Option<JsonValue>>> {
    match v {
        JsonValue::Object(_) => Some(Seq::new(12, |i: int| json_get(v, entity_keys()[i]))),
        JsonValue::Array(a) => if a@.len() <= 12 {
            Some(Seq::new(12, |i: int| if i < a@.len() { Some(a@[i]) } else { None }))
        } else {
            None
        },
        _ => None,
    }
}

pub open spec fn decode_entity_fields(v: JsonValue) -> Option<Seq<Option<Seq<char>>>> {
    match raw_entity_fields(v) {
        Some(fs) => if forall|i: int| 0 <= i < 12 ==> (#[trigger] opt_string(fs[i])) is Some {
            Some(Seq::new(12, |i: int| opt_string(fs[i]).unwrap()))
        } else {
            None
        },
        None => None,
    }
}

pub open spec fn entity_fields(e: IntentEntities) -> Seq<Option<Seq<char>>> {
    seq![
        str_view(e.pod_name),
        str_view(e.namespace),
        str_view(e.cluster),
        str_view(e.service_name),
        str_view(e.deployment_name),
        str_view(e.node_name),
        str_view(e.query),
        str_view(e.domain),
        str_view(e.virtualization),
        str_view(e.kubernetes_resource),
        str_view(e.resource_state),
        str_view(e.error_keyword),
    ]
}

/// A classification as plain values: intent, number as written, entity fields, reasoning.
pub struct ClassificationModel {
    pub intent: Seq<char>,
    pub confidence: Seq<char>,
    pub entities: Seq<Option<Seq<char>>>,
    pub reasoning: Option<Seq<char>>,
}

/// The classification an answer's JSON decodes to: an object with string `intent`, number
/// `confidence`, `entities` and optional string `reasoning`, or those in order as an array
/// (the reasoning may be left off).
pub open spec fn decode_classification(v: JsonValue) -> Option<ClassificationModel> {
    let parts: Option<(Option<JsonValue>, Option<JsonValue>, Option<JsonValue>, Option<JsonValue>)> =
        match v {
        JsonValue::Object(_) => Some(
            (
                json_get(v, "intent"@),
                json_get(v, "confidence"@),
                json_get(v, "entities"@),
                json_get(v, "reasoning"@),
            ),
        ),
        JsonValue::Array(a) => if a@.len() == 3 {
            Some((Some(a@[0]), Some(a@[1]), Some(a@[2]), None))
        } else if a@.len() == 4 {
            Some((Some(a@[0]), Some(a@[1]), Some(a@[2]), Some(a@[3])))
        } else {
            None
        },
        _ => None,
    };
    match parts {
        Some((Some(JsonValue::Str(i)), Some(JsonValue::Number(n)), Some(e), r)) => match (
            decode_entity_fields(e),
            opt_string(r),
        ) {
            (Some(fs), Some(reasoning)) => Some(
                ClassificationModel { intent: i@, confidence: n@, entities: fs, reasoning },
            ),
            _ => None,
        },
        _ => None,
    }
}

/// Why no classification came out.
#[derive(Debug, Clone, PartialEq, Eq)]
pub enum ClassifyError {
    /// The answer held no usable JSON and the fallback is disabled.
    Unparsable,
}

fn opt_string_exec(v: Option<&JsonValue>) -> (r: Result<Option<String>, ()>)
    ensures
        match r {
            Ok(s) => opt_string(match v {
                Some(x) => Some(*x),
                None => None,
            }) == Some(str_view(s)),
            Err(_) => opt_string(match v {
                Some(x) => Some(*x),
                None => None,
            }) is None,
        },
{
    match v {
        None => Ok(None),
        Some(JsonValue::Null) => Ok(None),
        Some(JsonValue::Str(s)) => Ok(Some(s.clone())),
        Some(_) => Err(()),
    }
}

fn entity_key(i: usize) -> (k: &'static str)
    requires
        i < 12,
    ensures
        k@ == entity_keys()[i as int],
{
    match i {
        0 => "pod_name",
        1 => "namespace",
        2 => "cluster",
        3 => "service_name",
        4 => "deployment_name",
        5 => "node_name",
        6 => "query",
        7 => "domain",
        8 => "virtualization",
        9 => "kubernetes_resource",
        10 => "resource_state",
        _ => "error_keyword",
    }
}

#[verifier::loop_isolation(false)]
fn decode_entities_exec(v: &JsonValue) -> (r: Option<IntentEntities>)
    ensures
        match r {
            Some(e) => decode_entity_fields(*v) == Some(entity_fields(e)),
            None => decode_entity_fields(*v) is None,
        },
{
    match v {
        JsonValue::Object(_) => {},
        JsonValue::Array(a) => {
            if a.len() > 12 {
                return None;
            }
        },
        _ => {
            return None;
        },
    }
    let ghost raw: Seq<Option<JsonValue>> = raw_entity_fields(*v).unwrap();
    let mut fields: Vec<Option<String>> = Vec::new();
    let mut i: usize = 0;
    while i < 12
        invariant
            i <= 12,
            fields@.len() == i,
            forall|j: int| 0 <= j < i ==> opt_string(raw[j]) == Some(str_view(#[trigger] fields@[j])),
        decreases 12 - i,
    {
        let x: Option<&JsonValue> = match v {
            JsonValue::Object(_) => v.get(entity_key(i)),
            JsonValue::Array(a) => if i < a.len() {
                Some(&a[i])
            } else {
                None
            },
            _ => None,
        };
        match opt_string_exec(x) {
            Ok(s) => {
                fields.push(s);
            },
            Err(_) => {
                assert(!(opt_string(raw[i as int]) is Some));
                return None;
            },
        }
        i = i + 1;
    }
    let e = IntentEntities {
        pod_name: copy_opt_string(&fields[0]),
        namespace: copy_opt_string(&fields[1]),
        cluster: copy_opt_string(&fields[2]),
        service_name: copy_opt_string(&fields[3]),
        deployment_name: copy_opt_string(&fields[4]),
        node_name: copy_opt_string(&fields[5]),
        query: copy_opt_string(&fields[6]),
        domain: copy_opt_string(&fields[7]),
        virtualization: copy_opt_string(&fields[8]),
        kubernetes_resource: copy_opt_string(&fields[9]),
        resource_state: copy_opt_string(&fields[10]),
        error_keyword: copy_opt_string(&fields[11]),
    };
    assert(entity_fields(e) =~= Seq::new(12, |j: int| opt_string(raw[j]).unwrap()));
    Some(e)
}

} // verus!

verus! {

pub open spec fn classification_model(c: IntentClassification) -> Option<ClassificationModel> {
    match c.confidence {
        Confidence::Stated(n) => Some(
            ClassificationModel {
                intent: c.intent_type@,
                confidence: n@,
                entities: entity_fields(c.entities),
                reasoning: str_view(c.reasoning),
            },
        ),
        Confidence::Tenths(_) => None,
    }
}

#[verifier::loop_isolation(false)]
fn decode_classification_exec(v: &JsonValue) -> (r: Option<IntentClassification>)
    ensures
        match r {
            Some(c) => decode_classification(*v) == classification_model(c) && c.confidence is Stated,
            None => decode_classification(*v) is None,
        },
{
    let (i, n, e, reason): (Option<&JsonValue>, Option<&JsonValue>, Option<&JsonValue>, Option<&JsonValue>) =
        match v {
        JsonValue::Object(_) => (v.get("intent"), v.get("confidence"), v.get("entities"), v.get("reasoning")),
        JsonValue::Array(a) => {
            if a.len() == 3 {
                (Some(&a[0]), Some(&a[1]), Some(&a[2]), None)
            } else if a.len() == 4 {
                (Some(&a[0]), Some(&a[1]), Some(&a[2]), Some(&a[3]))
            } else {
                return None;
            }
        },
        _ => {
            return None;
        },
    };
    let intent = match i {
        Some(JsonValue::Str(s)) => s.clone(),
        _ => {
            return None;
        },
    };
    let number = match n {
        Some(JsonValue::Number(t)) => t.clone(),
        _ => {
            return None;
        },
    };
    let entities = match e {
        Some(x) => match decode_entities_exec(x) {
            Some(ents) => ents,
            None => {
                return None;
            },
        },
        None => {
            return None;
        },
    };
    let reasoning = match opt_string_exec(reason) {
        Ok(r) => r,
        Err(_) => {
            return None;
        },
    };
    Some(
        IntentClassification {
            intent_type: intent,
            confidence: Confidence::Stated(number),
            entities,
            reasoning,
        },
    )
}

/// What the answer's JSON decodes to, when it holds a classification.
pub open spec fn answer_classification(content: Seq<char>) -> Option<ClassificationModel> {
    match spec_extract_json_from_response(content) {
        Some(j) => match parsed_json(j) {
            Some(v) => decode_classification(v),
            None => None,
        },
        None => None,
    }
}

impl IntentClassifierImpl {
    /// Classifies a message by keywords: the intent `spec_fallback_intent` names, sure to six
    /// tenths, or to three tenths when no keyword is found; no entities.
    pub fn fallback_classify(message: &str) -> (c: IntentClassification)
        ensures
            c.intent_type@ == spec_fallback_intent(lowercase(message@)),
            c.confidence == (if spec_fallback_intent(lowercase(message@)) == "Unknown"@ {
                Confidence::Tenths(3)
            } else {
                Confidence::Tenths(6)
            }),
            c.entities.is_empty(),
            str_view(c.reasoning) == Some("Fallback classification based on keywords"@),
    {
        let t = Self::fallback_intent_type(message);
        proof {
            reveal_strlit("Unknown");
            reveal_strlit("Logs");
            reveal_strlit("Metrics");
            reveal_strlit("Health");
            reveal_strlit("Debug");
            reveal_strlit("Query");
            reveal_strlit("Scale");
            reveal_strlit("Deploy");
        }
        let confidence = if crate::text::str_eq(t, "Unknown") {
            Confidence::Tenths(3)
        } else {
            Confidence::Tenths(6)
        };
        IntentClassification {
            intent_type: t.to_string(),
            confidence,
            entities: IntentEntities::new(),
            reasoning: Some("Fallback classification based on keywords".to_string()),
        }
    }

    /// What the classifier makes of a model answer to `message`: the classification its JSON
    /// holds, else the keyword fallback when enabled, else an error.
    pub fn classify(&self, content: &str, message: &str) -> (r: Result<IntentClassification, ClassifyError>)
        ensures
            match answer_classification(content@) {
                Some(m) => r matches Ok(c) && classification_model(c) == Some(m),
                None => if self.fallback_enabled {
                    r matches Ok(c) && c.intent_type@ == spec_fallback_intent(lowercase(message@))
                        && c.confidence == (if spec_fallback_intent(lowercase(message@)) == "Unknown"@ {
                        Confidence::Tenths(3)
                    } else {
                        Confidence::Tenths(6)
                    }) && c.entities.is_empty() && str_view(c.reasoning) == Some(
                        "Fallback classification based on keywords"@,
                    )
                } else {
                    r == Err::<IntentClassification, ClassifyError>(ClassifyError::Unparsable)
                },
            },
    {
        match Self::extract_json_from_response(content) {
            Some(j) => match parse_json(j.as_str()) {
                Some(v) => match decode_classification_exec(&v) {
                    Some(c) => {
                        return Ok(c);
                    },
                    None => {},
                },
                None => {},
            },
            None => {},
        }
        if self.fallback_enabled {
            Ok(Self::fallback_classify(message))
        } else {
            Err(ClassifyError::Unparsable)
        }
    }
}

/// An answer that is a bare JSON object, with no code fence, is taken whole once trimmed.
pub proof fn bare_object_answer_is_taken_whole(content: Seq<char>)
    requires
        starts_with(trim(content), "{"@),
        !contains(trim(content), "```json"@),
        !contains(trim(content), "```"@),
    ensures
        spec_extract_json_from_response(content) == Some(trim(content)),
{
}

} // verus!
