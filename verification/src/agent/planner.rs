//! Execution planner: what the model is asked for a diagnostic plan, and how its answer becomes
//! a plan.

use crate::agent::context::ChatMessage;
use crate::agent::prompt_builder::{PromptBuilder, spec_planner_prompt};
use crate::text::{
    close_index, contains, contains_chars, extend_str, find, find_chars, find_close_index,
    from_chars, lemma_find_from_props, lemma_find_shift, slice_chars, to_chars, trim, trim_chars,
};
use crate::json::{index_in, json_array, json_get, json_index, json_str, parse_json, parsed_json, str_in, JsonValue};
use crate::types::skill::{SkillMetadata, SkillTool};
use vstd::prelude::*;

verus! {

/// Execution plan: the queries to run.
#[derive(Debug, Clone)]
pub struct ExecutionPlan {
    pub steps: Vec<PlanStep>,
    pub reasoning: String,
}

/// One step of a plan.
#[derive(Debug, Clone)]
pub struct PlanStep {
    pub step_id: usize,
    pub description: String,
    /// The shell command the model decided to run (e.g. `kubectl get pod ...`).
    pub command: String,
    pub parameters: Vec<QueryParameter>,
}

/// A named parameter of a step.
#[derive(Debug, Clone)]
pub struct QueryParameter {
    pub name: String,
    pub value: String,
}

/// A step as the model writes it, before it is numbered.
#[derive(Debug, Clone)]
pub struct PlanStepDraft {
    pub description: String,
    pub command: String,
    pub parameters: Vec<QueryParameter>,
}

impl ExecutionPlan {
    /// Numbers the drafted steps from 1 in the order the model gave them.
    pub fn from_drafts(reasoning: String, drafts: Vec<PlanStepDraft>) -> (p: ExecutionPlan)
        ensures
            p.reasoning == reasoning,
            p.steps@.len() == drafts@.len(),
            forall|i: int|
                0 <= i < drafts@.len() ==> {
                    &&& (#[trigger] p.steps@[i]).step_id == i + 1
                    &&& p.steps@[i].description == drafts@[i].description
                    &&& p.steps@[i].command == drafts@[i].command
                    &&& p.steps@[i].parameters == drafts@[i].parameters
                },
    {
        let n = drafts.len();
        let mut steps: Vec<PlanStep> = Vec::new();
        let mut rest = drafts;
        let ghost orig = rest@;
        let mut i: usize = 0;
        while i < n
            invariant
                n == orig.len(),
                i <= n,
                rest@ == orig.skip(i as int),
                steps@.len() == i,
                forall|k: int|
                    0 <= k < i ==> {
                        &&& (#[trigger] steps@[k]).step_id == k + 1
                        &&& steps@[k].description == orig[k].description
                        &&& steps@[k].command == orig[k].command
                        &&& steps@[k].parameters == orig[k].parameters
                    },
            decreases n - i,
        {
            let d = rest.remove(0);
            assert(d == orig[i as int]);
            assert(rest@ =~= orig.skip(i + 1));
            steps.push(
                PlanStep {
                    step_id: i + 1,
                    description: d.description,
                    command: d.command,
                    parameters: d.parameters,
                },
            );
            i = i + 1;
        }
        ExecutionPlan { steps, reasoning }
    }
}

/// The trimmed text between the first `open` fence of `r` and the next closing fence after it.
pub open spec fn fenced_block(r: Seq<char>, open: Seq<char>) -> Option<Seq<char>> {
    let start = find(r, open).unwrap() + open.len();
    match find(r.skip(start as int), "```"@) {
        Some(e) => Some(trim(r.subrange(start as int, (start + e) as int))),
        None => None,
    }
}

/// The balanced object that starts at the first `{` of `r`.
pub open spec fn braced_object(r: Seq<char>) -> Option<Seq<char>> {
    match find(r, "{"@) {
        Some(s) => match close_index(r.skip(s as int), 0, 0) {
            Some(k) => Some(r.skip(s as int).take(k + 1 as int)),
            None => None,
        },
        None => None,
    }
}

/// JSON extracted from a model answer that may wrap it in a markdown code fence.
pub open spec fn spec_extract_json(response: Seq<char>) -> Option<Seq<char>> {
    let r = trim(response);
    if contains(r, "```json"@) {
        fenced_block(r, "```json"@)
    } else if contains(r, "```"@) {
        fenced_block(r, "```"@)
    } else {
        braced_object(r)
    }
}

pub open spec fn opt_chars(o: Option<Vec<char>>) -> Option<Seq<char>> {
    match o {
        Some(v) => Some(v@),
        None => None,
    }
}

/// Decides `fenced_block` for a fence known to occur.
pub fn fenced_block_chars(r: &[char], open: &[char]) -> (out: Option<Vec<char>>)
    requires
        contains(r@, open@),
    ensures
        opt_chars(out) == fenced_block(r@, open@),
{
    proof {
        lemma_find_from_props(r@, open@, 0);
    }
    let first = find_chars(r, open, 0);
    let pos = first.unwrap();
    let rl = r.len();
    assert(pos + open@.len() <= rl);
    let start = pos + open.len();
    let fence = to_chars("```");
    proof {
        lemma_find_shift(r@, fence@, start as nat, 0);
        assert(start + 0 == start);
        lemma_find_from_props(r@, fence@, start as nat);
    }
    match find_chars(r, fence.as_slice(), start) {
        Some(e_abs) => {
            let inner = slice_chars(r, start, e_abs);
            Some(trim_chars(inner.as_slice()))
        },
        None => None,
    }
}

/// Decides `braced_object`.
pub fn braced_object_chars(r: &[char]) -> (out: Option<Vec<char>>)
    ensures
        opt_chars(out) == braced_object(r@),
{
    let brace = to_chars("{");
    proof {
        lemma_find_from_props(r@, brace@, 0);
        reveal_strlit("{");
    }
    match find_chars(r, brace.as_slice(), 0) {
        Some(s) => {
            let rem = slice_chars(r, s, r.len());
            assert(rem@ == r@.skip(s as int));
            assert(rem@[0] == r@.subrange(s as int, s + 1)[0]);
            match find_close_index(rem.as_slice()) {
                Some(k) => {
                    let obj = slice_chars(rem.as_slice(), 0, k + 1);
                    assert(obj@ == rem@.take(k + 1));
                    Some(obj)
                },
                None => None,
            }
        },
        None => None,
    }
}

/// Extracts JSON from a response that may carry markdown formatting.
pub fn extract_json(response: &str) -> (out: Option<String>)
    ensures
        out matches Some(s) ==> spec_extract_json(response@) == Some(s@),
        out is None ==> spec_extract_json(response@) is None,
{
    let rv = to_chars(response);
    let r = trim_chars(rv.as_slice());
    let json_fence = to_chars("```json");
    let fence = to_chars("```");
    let found = if contains_chars(r.as_slice(), json_fence.as_slice()) {
        fenced_block_chars(r.as_slice(), json_fence.as_slice())
    } else if contains_chars(r.as_slice(), fence.as_slice()) {
        fenced_block_chars(r.as_slice(), fence.as_slice())
    } else {
        braced_object_chars(r.as_slice())
    };
    match found {
        Some(v) => Some(from_chars(v.as_slice())),
        None => None,
    }
}

/// Planner: builds the model conversation that asks for a diagnostic plan.
#[derive(Debug, Clone)]
pub struct Planner {
    pub prompt_builder: PromptBuilder,
}

/// The tools of all matched skills, in order.
pub open spec fn all_tools(skills: Seq<SkillMetadata>) -> Seq<SkillTool>
    decreases skills.len(),
{
    if skills.len() == 0 {
        Seq::empty()
    } else {
        all_tools(skills.drop_last()) + skills.last().tools@
    }
}

/// The user message that asks for a plan.
pub open spec fn plan_request(user_query: Seq<char>, intent_type: Seq<char>) -> Seq<char> {
    "User request: "@ + user_query + "\nIntent type: "@ + intent_type
        + "\n\nAnalyze the problem and plan diagnostic steps. Return JSON directly."@
}

impl Planner {
    pub fn new() -> (p: Planner)
        ensures
            p.prompt_builder.identity@ == crate::agent::prompt_builder::DEFAULT_IDENTITY@,
            p.prompt_builder.capabilities@ == crate::agent::prompt_builder::DEFAULT_CAPABILITIES@,
    {
        Planner { prompt_builder: PromptBuilder::new() }
    }

    /// The conversation sent to the model for a plan: the planner prompt built from the matched
    /// skills and all their tools, then the request.
    pub fn plan_messages(&self, user_query: &str, intent_type: &str, matched_skills: &[&SkillMetadata])
        -> (msgs: Vec<ChatMessage>)
        ensures
            msgs@.len() == 2,
            msgs@[0].role == crate::agent::context::MessageRole::System,
            msgs@[0].content@ == spec_planner_prompt(
                self.prompt_builder.identity@,
                crate::agent::prompt_builder::deref_skills(matched_skills@),
                all_tools(crate::agent::prompt_builder::deref_skills(matched_skills@)),
            ),
            msgs@[1].role == crate::agent::context::MessageRole::User,
            msgs@[1].content@ == plan_request(user_query@, intent_type@),
    {
        let ghost ds = crate::agent::prompt_builder::deref_skills(matched_skills@);
        let mut tools: Vec<&SkillTool> = Vec::new();
        let mut i: usize = 0;
        while i < matched_skills.len()
            invariant
                i <= matched_skills@.len(),
                ds == crate::agent::prompt_builder::deref_skills(matched_skills@),
                crate::agent::prompt_builder::deref_tools(tools@) == all_tools(ds.take(i as int)),
            decreases matched_skills.len() - i,
        {
            let skill: &SkillMetadata = matched_skills[i];
            let ghost before = crate::agent::prompt_builder::deref_tools(tools@);
            let mut j: usize = 0;
            while j < skill.tools.len()
                invariant
                    j <= skill.tools@.len(),
                    crate::agent::prompt_builder::deref_tools(tools@) == before + skill.tools@.take(
                        j as int,
                    ),
                decreases skill.tools.len() - j,
            {
                let ghost prev = tools@;
                let t: &SkillTool = &skill.tools[j];
                tools.push(t);
                proof {
                    let lhs = crate::agent::prompt_builder::deref_tools(tools@);
                    let rhs = before + skill.tools@.take(j + 1);
                    assert(tools@ == prev.push(t));
                    assert(crate::agent::prompt_builder::deref_tools(prev).len() == prev.len());
                    assert(skill.tools@.take(j + 1).len() == j + 1);
                    assert(skill.tools@.take(j as int).len() == j);
                    assert(lhs.len() == rhs.len());
                    assert forall|k: int| 0 <= k < lhs.len() implies lhs[k] == rhs[k] by {
                        if k < prev.len() {
                            assert(lhs[k] == crate::agent::prompt_builder::deref_tools(prev)[k]);
                        } else {
                            assert(lhs[k] == *t);
                        }
                    }
                    assert(lhs =~= rhs);
                }
                j = j + 1;
            }
            proof {
                assert(skill.tools@.take(skill.tools@.len() as int) == skill.tools@);
                assert(ds.take(i + 1).drop_last() == ds.take(i as int));
                assert(ds.take(i + 1).last() == ds[i as int]);
            }
            i = i + 1;
        }
        assert(ds.take(ds.len() as int) == ds);
        let system = self.prompt_builder.build_planner_prompt(matched_skills, tools.as_slice());
        let mut req: Vec<char> = to_chars("User request: ");
        extend_str(&mut req, user_query);
        extend_str(&mut req, "\nIntent type: ");
        extend_str(&mut req, intent_type);
        extend_str(&mut req, "\n\nAnalyze the problem and plan diagnostic steps. Return JSON directly.");
        let req_s = from_chars(req.as_slice());
        let mut msgs: Vec<ChatMessage> = Vec::new();
        msgs.push(ChatMessage::system(system.as_str()));
        msgs.push(ChatMessage::user(req_s.as_str()));
        msgs
    }
}

} // verus!

verus! {

/// A parameter of a step: an object with string `name` and `value`, or the two strings in
/// order.
pub open spec fn decode_param(v: JsonValue) -> Option<(Seq<char>, Seq<char>)> {
    match v {
        JsonValue::Object(_) => match (json_str(json_index(v, "name"@)), json_str(json_index(v, "value"@))) {
            (Some(n), Some(x)) => Some((n, x)),
            _ => None,
        },
        JsonValue::Array(a) => if a@.len() == 2 {
            match (json_str(a@[0]), json_str(a@[1])) {
                (Some(n), Some(x)) => Some((n, x)),
                _ => None,
            }
        } else {
            None
        },
        _ => None,
    }
}

/// All parameters, or `None` when one is malformed.
pub open spec fn decode_params(vs: Seq<JsonValue>) -> Option<Seq<(Seq<char>, Seq<char>)>>
    decreases vs.len(),
{
    if vs.len() == 0 {
        Some(Seq::empty())
    } else {
        match (decode_params(vs.drop_last()), decode_param(vs.last())) {
            (Some(ps), Some(p)) => Some(ps.push(p)),
            _ => None,
        }
    }
}

/// A parameter list that must be an array.
pub open spec fn decode_param_list(v: JsonValue) -> Option<Seq<(Seq<char>, Seq<char>)>> {
    match json_array(v) {
        Some(a) => decode_params(a),
        None => None,
    }
}

/// A step as plain values.
pub struct StepModel {
    pub description: Seq<char>,
    pub command: Seq<char>,
    pub parameters: Seq<(Seq<char>, Seq<char>)>,
}

/// A step: an object with string `description` and `command` and an optional `parameters`
/// array, or those in order as an array (the parameters may be left off).
pub open spec fn decode_step(v: JsonValue) -> Option<StepModel> {
    match v {
        JsonValue::Object(_) => match (
            json_str(json_index(v, "description"@)),
            json_str(json_index(v, "command"@)),
            match json_get(v, "parameters"@) {
                None => Some(Seq::empty()),
                Some(p) => decode_param_list(p),
            },
        ) {
            (Some(d), Some(c), Some(ps)) => Some(StepModel { description: d, command: c, parameters: ps }),
            _ => None,
        },
        JsonValue::Array(a) => if a@.len() == 2 || a@.len() == 3 {
            match (
                json_str(a@[0]),
                json_str(a@[1]),
                if a@.len() == 3 {
                    decode_param_list(a@[2])
                } else {
                    Some(Seq::empty())
                },
            ) {
                (Some(d), Some(c), Some(ps)) => Some(StepModel { description: d, command: c, parameters: ps }),
                _ => None,
            }
        } else {
            None
        },
        _ => None,
    }
}

pub open spec fn decode_steps(vs: Seq<JsonValue>) -> Option<Seq<StepModel>>
    decreases vs.len(),
{
    if vs.len() == 0 {
        Some(Seq::empty())
    } else {
        match (decode_steps(vs.drop_last()), decode_step(vs.last())) {
            (Some(ss), Some(s)) => Some(ss.push(s)),
            _ => None,
        }
    }
}

/// A plan: an object with string `reasoning` and a `steps` array, or those two in order as an
/// array.
pub open spec fn decode_plan(v: JsonValue) -> Option<(Seq<char>, Seq<StepModel>)> {
    let parts = match v {
        JsonValue::Object(_) => Some((json_index(v, "reasoning"@), json_index(v, "steps"@))),
        JsonValue::Array(a) => if a@.len() == 2 {
            Some((a@[0], a@[1]))
        } else {
            None
        },
        _ => None,
    };
    match parts {
        Some((r, s)) => match (json_str(r), json_array(s)) {
            (Some(reasoning), Some(steps)) => match decode_steps(steps) {
                Some(ss) => Some((reasoning, ss)),
                None => None,
            },
            _ => None,
        },
        None => None,
    }
}

/// Why a planner answer is not a plan.
#[derive(Debug, Clone)]
pub enum PlanError {
    /// No JSON could be found in the answer.
    NoJson,
    /// The JSON found is not a plan; carries it.
    InvalidPlan(String),
}

pub open spec fn params_view(ps: Seq<QueryParameter>) -> Seq<(Seq<char>, Seq<char>)> {
    Seq::new(ps.len(), |i: int| (ps[i].name@, ps[i].value@))
}

pub open spec fn step_model(s: PlanStep) -> StepModel {
    StepModel { description: s.description@, command: s.command@, parameters: params_view(s.parameters@) }
}

pub open spec fn draft_model(s: PlanStepDraft) -> StepModel {
    StepModel { description: s.description@, command: s.command@, parameters: params_view(s.parameters@) }
}

/// What a planner answer yields: the plan decoded from the JSON it holds, steps numbered from 1.
pub open spec fn plan_outcome(response: Seq<char>) -> Option<Option<(Seq<char>, Seq<StepModel>)>> {
    match spec_extract_json(response) {
        None => None,
        Some(j) => Some(
            match parsed_json(j) {
                Some(v) => decode_plan(v),
                None => None,
            },
        ),
    }
}

fn decode_param_exec(v: &JsonValue) -> (r: Option<QueryParameter>)
    ensures
        match r {
            Some(p) => decode_param(*v) == Some((p.name@, p.value@)),
            None => decode_param(*v) is None,
        },
{
    match v {
        JsonValue::Object(_) => {
            let n = str_in(index_in(Some(v), "name"));
            let x = str_in(index_in(Some(v), "value"));
            match (n, x) {
                (Some(n), Some(x)) => Some(QueryParameter { name: n, value: x }),
                _ => None,
            }
        },
        JsonValue::Array(a) => {
            if a.len() == 2 {
                match (str_in(Some(&a[0])), str_in(Some(&a[1]))) {
                    (Some(n), Some(x)) => Some(QueryParameter { name: n, value: x }),
                    _ => None,
                }
            } else {
                None
            }
        },
        _ => None,
    }
}

#[verifier::loop_isolation(false)]
fn decode_param_list_exec(v: &JsonValue) -> (r: Option<Vec<QueryParameter>>)
    ensures
        match r {
            Some(ps) => decode_param_list(*v) == Some(params_view(ps@)),
            None => decode_param_list(*v) is None,
        },
{
    let a = match v.as_array() {
        Some(a) => a,
        None => {
            return None;
        },
    };
    let mut ps: Vec<QueryParameter> = Vec::new();
    let mut i: usize = 0;
    while i < a.len()
        invariant
            i <= a@.len(),
            decode_params(a@.take(i as int)) == Some(params_view(ps@)),
        decreases a.len() - i,
    {
        assert(a@.take(i + 1).drop_last() =~= a@.take(i as int));
        match decode_param_exec(&a[i]) {
            Some(p) => {
                let ghost before = params_view(ps@);
                ps.push(p);
                assert(params_view(ps@) =~= before.push((p.name@, p.value@)));
            },
            None => {
                assert(a@.take(i + 1).last() == a@[i as int]);
                assert(decode_param(a@[i as int]) is None);
                assert(decode_params(a@.take(i + 1)) is None);
                proof {
                    lemma_decode_params_prefix_none(a@, i as int + 1);
                }
                return None;
            },
        }
        i = i + 1;
    }
    assert(a@.take(i as int) =~= a@);
    Some(ps)
}

proof fn lemma_decode_params_prefix_none(vs: Seq<JsonValue>, n: int)
    requires
        0 <= n <= vs.len(),
        decode_params(vs.take(n)) is None,
    ensures
        decode_params(vs) is None,
    decreases vs.len(),
{
    if n < vs.len() {
        assert(vs.drop_last().take(n) =~= vs.take(n));
        lemma_decode_params_prefix_none(vs.drop_last(), n);
    } else {
        assert(vs.take(n) =~= vs);
    }
}

proof fn lemma_decode_steps_prefix_none(vs: Seq<JsonValue>, n: int)
    requires
        0 <= n <= vs.len(),
        decode_steps(vs.take(n)) is None,
    ensures
        decode_steps(vs) is None,
    decreases vs.len(),
{
    if n < vs.len() {
        assert(vs.drop_last().take(n) =~= vs.take(n));
        lemma_decode_steps_prefix_none(vs.drop_last(), n);
    } else {
        assert(vs.take(n) =~= vs);
    }
}

fn decode_step_exec(v: &JsonValue) -> (r: Option<PlanStepDraft>)
    ensures
        match r {
            Some(d) => decode_step(*v) == Some(draft_model(d)),
            None => decode_step(*v) is None,
        },
{
    match v {
        JsonValue::Object(_) => {
            let d = str_in(index_in(Some(v), "description"));
            let c = str_in(index_in(Some(v), "command"));
            let ps = match v.get("parameters") {
                None => {
                    let e: Vec<QueryParameter> = Vec::new();
                    assert(params_view(e@) =~= Seq::<(Seq<char>, Seq<char>)>::empty());
                    Some(e)
                },
                Some(p) => decode_param_list_exec(p),
            };
            match (d, c, ps) {
                (Some(d), Some(c), Some(ps)) => {
                    Some(PlanStepDraft { description: d, command: c, parameters: ps })
                },
                _ => None,
            }
        },
        JsonValue::Array(a) => {
            if a.len() == 2 || a.len() == 3 {
                let d = str_in(Some(&a[0]));
                let c = str_in(Some(&a[1]));
                let ps = if a.len() == 3 {
                    decode_param_list_exec(&a[2])
                } else {
                    Some(Vec::new())
                };
                match (d, c, ps) {
                    (Some(d), Some(c), Some(ps)) => {
                        proof {
                            if a@.len() == 2 {
                                assert(params_view(ps@) =~= Seq::<(Seq<char>, Seq<char>)>::empty());
                            }
                        }
                        Some(PlanStepDraft { description: d, command: c, parameters: ps })
                    },
                    _ => None,
                }
            } else {
                None
            }
        },
        _ => None,
    }
}

/// Reads a plan out of a planner answer: the JSON it holds must decode as a plan; steps are
/// numbered from 1 in the order given.
#[verifier::loop_isolation(false)]
pub fn parse_plan(response: &str) -> (r: Result<ExecutionPlan, PlanError>)
    ensures
        match plan_outcome(response@) {
            None => r matches Err(PlanError::NoJson),
            Some(None) => r matches Err(PlanError::InvalidPlan(_)),
            Some(Some((reasoning, steps))) => r matches Ok(p) && p.reasoning@ == reasoning
                && p.steps@.len() == steps.len() && forall|i: int|
                0 <= i < steps.len() ==> (#[trigger] p.steps@[i]).step_id == i + 1 && step_model(
                    p.steps@[i],
                ) == steps[i],
        },
{
    let json_str = match extract_json(response) {
        Some(j) => j,
        None => {
            return Err(PlanError::NoJson);
        },
    };
    let v = match parse_json(json_str.as_str()) {
        Some(v) => v,
        None => {
            return Err(PlanError::InvalidPlan(json_str));
        },
    };
    let parts: Option<(&JsonValue, &JsonValue)> = match &v {
        JsonValue::Object(_) => {
            match (v.get("reasoning"), v.get("steps")) {
                (Some(r), Some(s)) => Some((r, s)),
                _ => {
                    return Err(PlanError::InvalidPlan(json_str));
                },
            }
        },
        JsonValue::Array(a) => {
            if a.len() == 2 {
                Some((&a[0], &a[1]))
            } else {
                None
            }
        },
        _ => None,
    };
    let (rv, sv) = match parts {
        Some(p) => p,
        None => {
            return Err(PlanError::InvalidPlan(json_str));
        },
    };
    let reasoning = match rv.as_str() {
        Some(s) => s.clone(),
        None => {
            return Err(PlanError::InvalidPlan(json_str));
        },
    };
    let steps = match sv.as_array() {
        Some(a) => a,
        None => {
            return Err(PlanError::InvalidPlan(json_str));
        },
    };
    let mut drafts: Vec<PlanStepDraft> = Vec::new();
    let mut i: usize = 0;
    while i < steps.len()
        invariant
            i <= steps@.len(),
            drafts@.len() == i,
            decode_steps(steps@.take(i as int)) == Some(
                Seq::new(i as nat, |k: int| draft_model(drafts@[k])),
            ),
        decreases steps.len() - i,
    {
        assert(steps@.take(i + 1).drop_last() =~= steps@.take(i as int));
        match decode_step_exec(&steps[i]) {
            Some(d) => {
                drafts.push(d);
                assert(Seq::new((i + 1) as nat, |k: int| draft_model(drafts@[k])) =~= Seq::new(
                    i as nat,
                    |k: int| draft_model(drafts@[k]),
                ).push(draft_model(d)));
            },
            None => {
                assert(steps@.take(i + 1).last() == steps@[i as int]);
                proof {
                    lemma_decode_steps_prefix_none(steps@, i as int + 1);
                }
                return Err(PlanError::InvalidPlan(json_str));
            },
        }
        i = i + 1;
    }
    assert(steps@.take(i as int) =~= steps@);
    let ghost dv = drafts@;
    let plan = ExecutionPlan::from_drafts(reasoning, drafts);
    assert forall|k: int| 0 <= k < dv.len() implies step_model(#[trigger] plan.steps@[k]) == draft_model(
        dv[k],
    ) by {}
    Ok(plan)
}

} // verus!
