//! The agent's decisions around one message: which path handles it, how a short follow-up is
//! given context, which skill runs next, and how results become a reply. The application runs
//! the skills, the model calls and the channels, and hands the outcomes back.

use crate::agent::context::copy_opt_string;
use crate::agent::planner::QueryParameter;
use crate::agent::router::{route_view, routes_view, RouteResult};
use crate::config::schema::ClusterConfig;
use crate::json::str_view;
use crate::keyed::{find_first, first_lookup};
use crate::llm::summarizer::ToolOutput;
use crate::text::{
    char_count, contains, decimal, ends_with, from_chars, lowercase, prefix_chars, push_str,
    replace_all, replace_str, slice_chars, starts_with, str_contains, str_ends_with, str_eq,
    str_starts_with, take_chars_str, to_chars, to_lowercase, u64_to_decimal,
};
use crate::types::agent::{IntentEntities, IntentType};
use vstd::prelude::*;

verus! {

/// The reply to a message whose intent was not understood; `{}` stands for the message.
pub const UNKNOWN_INTENT_HELP: &'static str = "抱歉，我没有理解你的请求。你说的是 \"{}\" 吗？\n\n我可以帮你：\n- 查看日志：\"查看 pod xxx 的日志\"\n- 查询指标：\"查询 CPU 使用率\"\n- 检查健康：\"检查集群状态\"\n- 排查问题：\"排查 pod xxx\"";

/// The reply when no skill produced output.
pub const EXEC_ERROR_FALLBACK: &'static str = "抱歉，处理你的请求时遇到了问题，请稍后重试。";

/// The reply when every cluster failed.
pub const ALL_CLUSTERS_FAILED: &'static str = "抱歉，所有集群查询都失败了。";

pub const MULTI_CLUSTER_TITLE: &'static str = "## 多集群查询结果\n\n";

pub const MULTI_CLUSTER_HEADER: &'static str = "| 集群 | 状态 | 摘要 |\n|------|------|------|\n";

/// The reply to a message whose intent was not understood.
pub fn unknown_intent_reply(raw_query: &str) -> (r: String)
    ensures
        r@ == replace_all(UNKNOWN_INTENT_HELP@, "{}"@, raw_query@),
{
    proof {
        reveal_strlit("{}");
    }
    replace_str(UNKNOWN_INTENT_HELP, "{}", raw_query)
}

/// A message shorter than twenty characters is taken as a follow-up.
pub fn is_followup_question(message: &str) -> (b: bool)
    ensures
        b == (message@.len() < 20),
{
    char_count(message) < 20
}

/// The path that handles a message.
#[derive(Debug, Clone, Copy, PartialEq, Eq, Structural)]
pub enum Dispatch {
    /// Plan diagnostic steps with the model.
    Planner,
    /// Explain what the agent can do.
    Unknown,
    /// Run the routes once per cluster.
    MultiCluster,
    /// Run the routes.
    Routes,
}

/// Debug intents go to the planner when there is one; without routes the intent is unknown;
/// a query over all clusters runs per cluster when clusters are known, and runs the routes once
/// when none is; otherwise the routes run.
pub open spec fn spec_dispatch(
    t: IntentType,
    has_planner: bool,
    no_routes: bool,
    multi: bool,
    has_clusters: bool,
) -> Dispatch {
    if t == IntentType::Debug && has_planner {
        Dispatch::Planner
    } else if no_routes {
        Dispatch::Unknown
    } else if multi && has_clusters {
        Dispatch::MultiCluster
    } else {
        Dispatch::Routes
    }
}

pub fn choose_dispatch(t: IntentType, has_planner: bool, no_routes: bool, multi: bool, has_clusters: bool) -> (d:
    Dispatch)
    ensures
        d == spec_dispatch(t, has_planner, no_routes, multi, has_clusters),
{
    if t == IntentType::Debug && has_planner {
        Dispatch::Planner
    } else if no_routes {
        Dispatch::Unknown
    } else if multi && has_clusters {
        Dispatch::MultiCluster
    } else {
        Dispatch::Routes
    }
}

/// A query over all clusters: no cluster named, and the query asks for all of them.
pub open spec fn spec_multi_cluster(cluster: Option<String>, raw_query: Seq<char>) -> bool {
    cluster is None && (contains(lowercase(raw_query), "all cluster"@) || contains(
        lowercase(raw_query),
        "所有集群"@,
    ) || contains(lowercase(raw_query), "全部集群"@))
}

pub fn is_multi_cluster_query(cluster: &Option<String>, raw_query: &str) -> (b: bool)
    ensures
        b == spec_multi_cluster(*cluster, raw_query@),
{
    if cluster.is_some() {
        return false;
    }
    let q = to_lowercase(raw_query);
    str_contains(q.as_str(), "all cluster") || str_contains(q.as_str(), "所有集群") || str_contains(
        q.as_str(),
        "全部集群",
    )
}

/// The enabled clusters, in configuration order.
pub open spec fn enabled_clusters(cs: Seq<(String, ClusterConfig)>) -> Seq<Seq<char>>
    decreases cs.len(),
{
    if cs.len() == 0 {
        Seq::empty()
    } else {
        enabled_clusters(cs.drop_last()) + if cs.last().1.enabled {
            seq![cs.last().0@]
        } else {
            Seq::empty()
        }
    }
}

pub fn get_known_clusters(clusters: &Vec<(String, ClusterConfig)>) -> (r: Vec<String>)
    ensures
        crate::text::strings_view(r@) == enabled_clusters(clusters@),
{
    let mut r: Vec<String> = Vec::new();
    let mut i: usize = 0;
    while i < clusters.len()
        invariant
            i <= clusters@.len(),
            crate::text::strings_view(r@) == enabled_clusters(clusters@.take(i as int)),
        decreases clusters.len() - i,
    {
        assert(clusters@.take(i + 1).drop_last() =~= clusters@.take(i as int));
        if clusters[i].1.enabled {
            crate::text::push_string(&mut r, clusters[i].0.as_str());
        }
        assert(crate::text::strings_view(r@) =~= enabled_clusters(clusters@.take(i + 1)));
        i = i + 1;
    }
    assert(clusters@.take(i as int) =~= clusters@);
    r
}

/// The kubectl context for an intent, when contexts are prepended: the cluster the intent names,
/// else the default one, if it is configured and enabled.
pub open spec fn spec_kubectl_context(
    prepend: bool,
    cluster: Option<Seq<char>>,
    default_cluster: Option<Seq<char>>,
    clusters: Seq<(String, ClusterConfig)>,
) -> Option<Seq<char>> {
    if !prepend {
        None
    } else {
        let name = match cluster {
            Some(c) => Some(c),
            None => default_cluster,
        };
        match name {
            None => None,
            Some(n) => match first_lookup(clusters, n) {
                None => None,
                Some(cfg) => if !cfg.enabled {
                    None
                } else {
                    Some(
                        match cfg.context {
                            Some(c) => c@,
                            None => n,
                        },
                    )
                },
            },
        }
    }
}

pub fn kubectl_context_for_intent(
    prepend: bool,
    cluster: &Option<String>,
    default_cluster: &Option<String>,
    clusters: &Vec<(String, ClusterConfig)>,
) -> (r: Option<String>)
    ensures
        str_view(r) == spec_kubectl_context(prepend, str_view(*cluster), str_view(*default_cluster), clusters@),
{
    if !prepend {
        return None;
    }
    let name: &str = match cluster {
        Some(c) => c.as_str(),
        None => match default_cluster {
            Some(d) => d.as_str(),
            None => {
                return None;
            },
        },
    };
    match find_first(clusters, name) {
        None => None,
        Some(i) => {
            let cfg = &clusters[i].1;
            if !cfg.enabled {
                None
            } else {
                Some(cfg.kubectl_context_name(name).to_string())
            }
        },
    }
}

/// The template with each `{{key}}` replaced by its value, the arguments taken in order.
pub open spec fn interpolated(template: Seq<char>, args: Seq<(String, String)>) -> Seq<char>
    decreases args.len(),
{
    if args.len() == 0 {
        template
    } else {
        replace_all(
            interpolated(template, args.drop_last()),
            "{{"@ + args.last().0@ + "}}"@,
            args.last().1@,
        )
    }
}

pub fn interpolate_skill_placeholders(template: &str, args: &Vec<(String, String)>) -> (r: String)
    ensures
        r@ == interpolated(template@, args@),
{
    let mut result = template.to_string();
    let mut i: usize = 0;
    while i < args.len()
        invariant
            i <= args@.len(),
            result@ == interpolated(template@, args@.take(i as int)),
        decreases args.len() - i,
    {
        assert(args@.take(i + 1).drop_last() =~= args@.take(i as int));
        let mut placeholder = String::new();
        push_str(&mut placeholder, "{{");
        push_str(&mut placeholder, args[i].0.as_str());
        push_str(&mut placeholder, "}}");
        proof {
            reveal_strlit("{{");
        }
        assert(placeholder@.len() > 0);
        result = replace_str(result.as_str(), placeholder.as_str(), args[i].1.as_str());
        i = i + 1;
    }
    assert(args@.take(i as int) =~= args@);
    result
}

/// A cluster row's summary: the first hundred characters of the output (with `...` when it
/// was longer), newlines turned into spaces.
pub open spec fn row_summary(content: Seq<char>) -> Seq<char> {
    replace_all(
        if content.len() > 100 {
            prefix_chars(content, 100) + "..."@
        } else {
            prefix_chars(content, 100)
        },
        "\n"@,
        " "@,
    )
}

/// The label of the `i`-th output: its cluster, or `cluster-<i>` past the list.
pub open spec fn row_cluster(clusters: Seq<String>, i: int) -> Seq<char> {
    if i < clusters.len() {
        clusters[i]@
    } else {
        "cluster-"@ + decimal(i as nat)
    }
}

pub open spec fn cluster_rows(outputs: Seq<ToolOutput>, clusters: Seq<String>) -> Seq<char>
    decreases outputs.len(),
{
    if outputs.len() == 0 {
        Seq::empty()
    } else {
        let i = outputs.len() - 1;
        let o = outputs.last();
        cluster_rows(outputs.drop_last(), clusters) + "| "@ + row_cluster(clusters, i) + " | "@ + (
        if o.success {
            "✅"@
        } else {
            "❌"@
        }) + " | "@ + row_summary(o.content@) + " |\n"@
    }
}

/// The table of per-cluster results.
pub open spec fn multi_cluster_table(outputs: Seq<ToolOutput>, clusters: Seq<String>) -> Seq<char> {
    MULTI_CLUSTER_TITLE@ + MULTI_CLUSTER_HEADER@ + cluster_rows(outputs, clusters)
}

pub fn format_multi_cluster_output(outputs: &Vec<ToolOutput>, clusters: &Vec<String>) -> (r: String)
    ensures
        r@ == multi_cluster_table(outputs@, clusters@),
{
    let mut result = String::new();
    push_str(&mut result, MULTI_CLUSTER_TITLE);
    push_str(&mut result, MULTI_CLUSTER_HEADER);
    let ghost head = result@;
    proof {
        reveal_strlit("\n");
    }
    let mut i: usize = 0;
    while i < outputs.len()
        invariant
            i <= outputs@.len(),
            head == MULTI_CLUSTER_TITLE@ + MULTI_CLUSTER_HEADER@,
            result@ == head + cluster_rows(outputs@.take(i as int), clusters@),
        decreases outputs.len() - i,
    {
        assert(outputs@.take(i + 1).drop_last() =~= outputs@.take(i as int));
        let o = &outputs[i];
        let ghost before = result@;
        push_str(&mut result, "| ");
        if i < clusters.len() {
            push_str(&mut result, clusters[i].as_str());
        } else {
            push_str(&mut result, "cluster-");
            let n = u64_to_decimal(i as u64);
            push_str(&mut result, n.as_str());
        }
        push_str(&mut result, " | ");
        if o.success {
            push_str(&mut result, "✅");
        } else {
            push_str(&mut result, "❌");
        }
        push_str(&mut result, " | ");
        let mut s = take_chars_str(o.content.as_str(), 100);
        if char_count(o.content.as_str()) > 100 {
            push_str(&mut s, "...");
        }
        proof {
            reveal_strlit("\n");
        }
        let summary = replace_str(s.as_str(), "\n", " ");
        push_str(&mut result, summary.as_str());
        push_str(&mut result, " |\n");
        assert(result@ =~= head + cluster_rows(outputs@.take(i + 1), clusters@));
        i = i + 1;
    }
    assert(outputs@.take(i as int) =~= outputs@);
    result
}

/// A reply on the local console ends with the turn's time and token count, when known.
pub open spec fn stdio_reply(
    content: Seq<char>,
    source_channel_id: Seq<char>,
    turn_ms: Option<u64>,
    tokens: Option<u32>,
) -> Seq<char> {
    if source_channel_id != "stdio"@ {
        content
    } else {
        content + "\n\n---\n"@ + match (turn_ms, tokens) {
            (None, None) => "(no LLM token usage recorded for this turn)"@,
            (Some(ms), None) => "turn "@ + decimal(ms as nat) + " ms"@,
            (None, Some(t)) => "llm_tokens "@ + decimal(t as nat),
            (Some(ms), Some(t)) => "turn "@ + decimal(ms as nat) + " ms"@ + " · "@ + "llm_tokens "@
                + decimal(t as nat),
        }
    }
}

pub fn stdio_reply_markdown(
    content: &str,
    source_channel_id: &str,
    turn_duration_ms: Option<u64>,
    turn_total_tokens: Option<u32>,
) -> (r: String)
    ensures
        r@ == stdio_reply(content@, source_channel_id@, turn_duration_ms, turn_total_tokens),
{
    let mut body = content.to_string();
    if !crate::text::str_eq(source_channel_id, "stdio") {
        return body;
    }
    push_str(&mut body, "\n\n---\n");
    match (turn_duration_ms, turn_total_tokens) {
        (None, None) => push_str(&mut body, "(no LLM token usage recorded for this turn)"),
        (Some(ms), None) => {
            push_str(&mut body, "turn ");
            push_str(&mut body, u64_to_decimal(ms).as_str());
            push_str(&mut body, " ms");
        },
        (None, Some(t)) => {
            push_str(&mut body, "llm_tokens ");
            push_str(&mut body, u64_to_decimal(t as u64).as_str());
        },
        (Some(ms), Some(t)) => {
            push_str(&mut body, "turn ");
            push_str(&mut body, u64_to_decimal(ms).as_str());
            push_str(&mut body, " ms");
            push_str(&mut body, " · ");
            push_str(&mut body, "llm_tokens ");
            push_str(&mut body, u64_to_decimal(t as u64).as_str());
        },
    }
    assert(body@ =~= stdio_reply(content@, source_channel_id@, turn_duration_ms, turn_total_tokens));
    body
}

} // verus!

verus! {

/// What to do next while running an intent's routes.
#[derive(Debug, Clone)]
pub enum RouteStep {
    /// Run this skill and report with `skill_succeeded` or `skill_failed`.
    RunSkill(String),
    /// A skill produced output: summarize it if a summarizer is at hand, then `finish`.
    Summarize,
    /// No skill produced output: `finish` with no summary.
    Fallback,
}

/// Running an intent's routes: the skills are tried in route order until one succeeds.
pub struct RouteRun {
    /// The skills of the routes, in order.
    pub skills: Vec<String>,
    /// The next skill to try.
    pub next: usize,
    /// A skill has succeeded.
    pub done: bool,
    /// No skill has failed so far.
    pub success: bool,
    /// The text of the skill that succeeded.
    pub raw_text: String,
    /// The tool outputs of the skill that succeeded.
    pub outputs: Vec<ToolOutput>,
}

/// The skills the routes name, in order.
pub open spec fn route_skills(routes: Seq<RouteResult>) -> Seq<Seq<char>>
    decreases routes.len(),
{
    if routes.len() == 0 {
        Seq::empty()
    } else {
        route_skills(routes.drop_last()) + match routes.last().skill_name {
            Some(s) => seq![s@],
            None => Seq::empty(),
        }
    }
}

impl RouteRun {
    pub fn new(routes: &Vec<RouteResult>) -> (r: RouteRun)
        ensures
            crate::text::strings_view(r.skills@) == route_skills(routes@),
            r.next == 0,
            !r.done,
            r.success,
            r.raw_text@.len() == 0,
            r.outputs@.len() == 0,
    {
        let mut skills: Vec<String> = Vec::new();
        let mut i: usize = 0;
        while i < routes.len()
            invariant
                i <= routes@.len(),
                crate::text::strings_view(skills@) == route_skills(routes@.take(i as int)),
            decreases routes.len() - i,
        {
            assert(routes@.take(i + 1).drop_last() =~= routes@.take(i as int));
            match &routes[i].skill_name {
                Some(s) => crate::text::push_string(&mut skills, s.as_str()),
                None => {},
            }
            assert(crate::text::strings_view(skills@) =~= route_skills(routes@.take(i + 1)));
            i = i + 1;
        }
        assert(routes@.take(i as int) =~= routes@);
        RouteRun {
            skills,
            next: 0,
            done: false,
            success: true,
            raw_text: String::new(),
            outputs: Vec::new(),
        }
    }

    /// The next skill while none has succeeded and some are left; then summarize when the
    /// succeeding skill said something, else fall back.
    pub fn next_step(&self) -> (s: RouteStep)
        ensures
            (!self.done && self.next < self.skills@.len()) ==> (s matches RouteStep::RunSkill(n)
                && n == self.skills@[self.next as int]),
            !(!self.done && self.next < self.skills@.len()) ==> (if self.raw_text@.len() > 0 {
                s is Summarize
            } else {
                s is Fallback
            }),
    {
        if !self.done && self.next < self.skills.len() {
            RouteStep::RunSkill(self.skills[self.next].clone())
        } else if char_count(self.raw_text.as_str()) > 0 {
            RouteStep::Summarize
        } else {
            RouteStep::Fallback
        }
    }

    /// The skill ran: its text and tool outputs are kept and no further skill is tried.
    pub fn skill_succeeded(&mut self, text: String, outputs: Vec<ToolOutput>)
        ensures
            final(self).done,
            final(self).raw_text == text,
            final(self).outputs@ == old(self).outputs@ + outputs@,
            final(self).success == old(self).success,
            final(self).skills == old(self).skills,
            final(self).next == old(self).next,
    {
        self.raw_text = text;
        let mut o = outputs;
        let ghost added = o@;
        self.outputs.append(&mut o);
        self.done = true;
    }

    /// The skill failed: the run is no longer a success and the next skill is tried.
    pub fn skill_failed(&mut self)
        requires
            old(self).next < old(self).skills@.len(),
        ensures
            !final(self).success,
            final(self).next == old(self).next + 1,
            final(self).done == old(self).done,
            final(self).raw_text == old(self).raw_text,
            final(self).outputs == old(self).outputs,
            final(self).skills == old(self).skills,
    {
        self.success = false;
        let _n = self.skills.len();
        self.next = self.next + 1;
    }

    /// The reply and whether the run succeeded: the summary when there is one, else the
    /// succeeding skill's text; with no text at all, the apology, and no success.
    pub fn finish(&self, summary: Option<String>) -> (r: (String, bool))
        ensures
            self.raw_text@.len() > 0 ==> r.0@ == (match summary {
                Some(s) => s@,
                None => self.raw_text@,
            }) && r.1 == self.success,
            self.raw_text@.len() == 0 ==> r.0@ == EXEC_ERROR_FALLBACK@ && !r.1,
    {
        if char_count(self.raw_text.as_str()) > 0 {
            match summary {
                Some(s) => (s, self.success),
                None => (self.raw_text.clone(), self.success),
            }
        } else {
            (EXEC_ERROR_FALLBACK.to_string(), false)
        }
    }
}

/// Running the routes once per cluster.
pub struct MultiClusterRun {
    pub clusters: Vec<String>,
    pub next: usize,
    pub outputs: Vec<ToolOutput>,
    pub success: bool,
}

impl MultiClusterRun {
    pub fn new(clusters: Vec<String>) -> (r: MultiClusterRun)
        ensures
            r.clusters == clusters,
            r.next == 0,
            r.outputs@.len() == 0,
            r.success,
    {
        MultiClusterRun { clusters, next: 0, outputs: Vec::new(), success: true }
    }

    /// The cluster to query next, if any.
    pub fn next_cluster(&self) -> (r: Option<String>)
        ensures
            self.next < self.clusters@.len() ==> str_view(r) == Some(self.clusters@[self.next as int]@),
            self.next >= self.clusters@.len() ==> r is None,
    {
        if self.next < self.clusters.len() {
            Some(self.clusters[self.next].clone())
        } else {
            None
        }
    }

    /// The routes ran for the current cluster: a non-empty reply is kept as that cluster's
    /// output (`cluster/<name>`); a failed or unsuccessful run marks the whole as failed.
    pub fn cluster_done(&mut self, reply: Option<(String, bool)>)
        requires
            old(self).next < old(self).clusters@.len(),
        ensures
            final(self).next == old(self).next + 1,
            final(self).clusters == old(self).clusters,
            match reply {
                Some((content, ok)) => {
                    &&& final(self).success == (old(self).success && ok)
                    &&& if content@.len() > 0 {
                        final(self).outputs@.len() == old(self).outputs@.len() + 1
                            && final(self).outputs@.take(old(self).outputs@.len() as int) == old(
                            self,
                        ).outputs@ && final(self).outputs@.last().tool_name@ == "cluster/"@
                            + old(self).clusters@[old(self).next as int]@
                            && final(self).outputs@.last().content@ == content@
                            && final(self).outputs@.last().success == ok
                    } else {
                        final(self).outputs@ == old(self).outputs@
                    }
                },
                None => !final(self).success && final(self).outputs@ == old(self).outputs@,
            },
    {
        match reply {
            Some((content, ok)) => {
                if char_count(content.as_str()) > 0 {
                    let mut name = String::new();
                    push_str(&mut name, "cluster/");
                    push_str(&mut name, self.clusters[self.next].as_str());
                    let ghost before = self.outputs@;
                    self.outputs.push(ToolOutput::new(name.as_str(), content.as_str(), ok));
                    assert(self.outputs@.take(before.len() as int) =~= before);
                }
                if !ok {
                    self.success = false;
                }
            },
            None => {
                self.success = false;
            },
        }
        let _n = self.clusters.len();
        self.next = self.next + 1;
    }

    /// The reply and whether all clusters succeeded: the summary when there is one, else the
    /// table of results; with no output at all, the apology, and no success.
    pub fn finish(&self, summary: Option<String>) -> (r: (String, bool))
        ensures
            self.outputs@.len() > 0 ==> r.0@ == (match summary {
                Some(s) => s@,
                None => multi_cluster_table(self.outputs@, self.clusters@),
            }) && r.1 == self.success,
            self.outputs@.len() == 0 ==> r.0@ == ALL_CLUSTERS_FAILED@ && !r.1,
    {
        if self.outputs.len() > 0 {
            match summary {
                Some(s) => (s, self.success),
                None => (format_multi_cluster_output(&self.outputs, &self.clusters), self.success),
            }
        } else {
            (ALL_CLUSTERS_FAILED.to_string(), false)
        }
    }
}

} // verus!

verus! {

/// The value a plan parameter takes: a `{{key}}` placeholder for a known entity takes the
/// entity (and is dropped when the entity is unknown); any other value stays as written.
pub open spec fn plan_param_value(v: Seq<char>, e: IntentEntities) -> Option<Seq<char>> {
    if starts_with(v, "{{"@) && ends_with(v, "}}"@) {
        let key = v.subrange(2, v.len() - 2);
        if key == "pod_name"@ {
            str_view(e.pod_name)
        } else if key == "namespace"@ {
            str_view(e.namespace)
        } else if key == "cluster"@ {
            str_view(e.cluster)
        } else if key == "service_name"@ {
            str_view(e.service_name)
        } else {
            Some(v)
        }
    } else {
        Some(v)
    }
}

/// Sets `k` to `v` in a list of pairs: in place when `k` is there, else at the end.
pub open spec fn assoc_insert(s: Seq<(Seq<char>, Seq<char>)>, k: Seq<char>, v: Seq<char>) -> Seq<
    (Seq<char>, Seq<char>),
>
    decreases s.len(),
{
    if s.len() == 0 {
        seq![(k, v)]
    } else if s[0].0 == k {
        s.update(0, (k, v))
    } else {
        seq![s[0]] + assoc_insert(s.drop_first(), k, v)
    }
}

/// A step's parameters resolved against the intent's entities, later names overriding earlier.
pub open spec fn plan_params(ps: Seq<QueryParameter>, e: IntentEntities) -> Seq<(Seq<char>, Seq<char>)>
    decreases ps.len(),
{
    if ps.len() == 0 {
        Seq::empty()
    } else {
        let prev = plan_params(ps.drop_last(), e);
        match plan_param_value(ps.last().value@, e) {
            Some(v) => assoc_insert(prev, ps.last().name@, v),
            None => prev,
        }
    }
}

pub open spec fn pairs_view(s: Seq<(String, String)>) -> Seq<(Seq<char>, Seq<char>)> {
    Seq::new(s.len(), |i: int| (s[i].0@, s[i].1@))
}

proof fn lemma_assoc_insert_at(s: Seq<(Seq<char>, Seq<char>)>, k: Seq<char>, v: Seq<char>, i: int)
    requires
        0 <= i < s.len(),
        s[i].0 == k,
        forall|j: int| 0 <= j < i ==> s[j].0 != k,
    ensures
        assoc_insert(s, k, v) == s.update(i, (k, v)),
    decreases s.len(),
{
    if i > 0 {
        lemma_assoc_insert_at(s.drop_first(), k, v, i - 1);
        assert(seq![s[0]] + s.drop_first().update(i - 1, (k, v)) =~= s.update(i, (k, v)));
    }
}

proof fn lemma_assoc_insert_absent(s: Seq<(Seq<char>, Seq<char>)>, k: Seq<char>, v: Seq<char>)
    requires
        forall|j: int| 0 <= j < s.len() ==> s[j].0 != k,
    ensures
        assoc_insert(s, k, v) == s.push((k, v)),
    decreases s.len(),
{
    if s.len() > 0 {
        lemma_assoc_insert_absent(s.drop_first(), k, v);
        assert(seq![s[0]] + s.drop_first().push((k, v)) =~= s.push((k, v)));
    }
}

fn resolve_param_value(v: &str, e: &IntentEntities) -> (r: Option<String>)
    ensures
        str_view(r) == plan_param_value(v@, *e),
{
    if str_starts_with(v, "{{") && str_ends_with(v, "}}") {
        proof {
            reveal_strlit("{{");
            reveal_strlit("}}");
        }
        let c = to_chars(v);
        assert(c@.len() >= 4) by {
            assert(c@.take(2)[1] == '{');
            assert(c@.skip(c@.len() - 2)[0] == '}');
            if c@.len() < 4 {
                if c@.len() == 2 {
                    assert(c@[1] == c@.take(2)[1]);
                    assert(c@[0] == c@.skip(c@.len() - 2)[0]);
                    assert(c@[0] == c@.take(2)[0]);
                } else {
                    assert(c@[1] == c@.take(2)[1]);
                    assert(c@[1] == c@.skip(c@.len() - 2)[0]);
                }
            }
        }
        let key_chars = slice_chars(c.as_slice(), 2, c.len() - 2);
        let key = from_chars(key_chars.as_slice());
        let k = key.as_str();
        if str_eq(k, "pod_name") {
            copy_opt_string(&e.pod_name)
        } else if str_eq(k, "namespace") {
            copy_opt_string(&e.namespace)
        } else if str_eq(k, "cluster") {
            copy_opt_string(&e.cluster)
        } else if str_eq(k, "service_name") {
            copy_opt_string(&e.service_name)
        } else {
            Some(v.to_string())
        }
    } else {
        Some(v.to_string())
    }
}

fn find_pair(r: &Vec<(String, String)>, k: &str) -> (pos: Option<usize>)
    ensures
        match pos {
            Some(j) => j < r@.len() && pairs_view(r@)[j as int].0 == k@ && forall|i: int|
                0 <= i < j ==> (#[trigger] pairs_view(r@)[i]).0 != k@,
            None => forall|i: int| 0 <= i < r@.len() ==> (#[trigger] pairs_view(r@)[i]).0 != k@,
        },
{
    let mut j: usize = 0;
    while j < r.len()
        invariant
            j <= r@.len(),
            forall|i: int| 0 <= i < j ==> (#[trigger] pairs_view(r@)[i]).0 != k@,
        decreases r.len() - j,
    {
        if str_eq(r[j].0.as_str(), k) {
            return Some(j);
        }
        j = j + 1;
    }
    None
}

/// The parameters of a planned step, resolved.
pub fn resolve_plan_params(params: &Vec<QueryParameter>, e: &IntentEntities) -> (r: Vec<(String, String)>)
    ensures
        pairs_view(r@) == plan_params(params@, *e),
{
    let mut r: Vec<(String, String)> = Vec::new();
    let mut i: usize = 0;
    while i < params.len()
        invariant
            i <= params@.len(),
            pairs_view(r@) == plan_params(params@.take(i as int), *e),
        decreases params.len() - i,
    {
        assert(params@.take(i + 1).drop_last() =~= params@.take(i as int));
        let p = &params[i];
        match resolve_param_value(p.value.as_str(), e) {
            Some(v) => {
                let ghost before = pairs_view(r@);
                let pos = find_pair(&r, p.name.as_str());
                if let Some(j) = pos {
                    proof {
                        lemma_assoc_insert_at(before, p.name@, v@, j as int);
                    }
                    let (key, _old) = r.remove(j);
                    r.insert(j, (key, v));
                    assert(pairs_view(r@) =~= before.update(j as int, (p.name@, v@)));
                } else {
                    proof {
                        lemma_assoc_insert_absent(before, p.name@, v@);
                    }
                    r.push((p.name.clone(), v));
                    assert(pairs_view(r@) =~= before.push((p.name@, v@)));
                }
            },
            None => {},
        }
        i = i + 1;
    }
    assert(params@.take(i as int) =~= params@);
    r
}

/// A planned step's command with each `{{name}}` replaced by its resolved parameter.
pub fn planned_step_command(command: &str, params: &Vec<(String, String)>) -> (r: String)
    ensures
        r@ == interpolated(command@, params@),
{
    interpolate_skill_placeholders(command, params)
}

/// The tool name of a planned step: `plan_step_<id>/<description>`.
pub fn planned_step_tool_name(step_id: usize, description: &str) -> (r: String)
    ensures
        r@ == "plan_step_"@ + decimal(step_id as nat) + "/"@ + description@,
{
    let mut s = String::new();
    push_str(&mut s, "plan_step_");
    push_str(&mut s, u64_to_decimal(step_id as u64).as_str());
    push_str(&mut s, "/");
    push_str(&mut s, description);
    s
}

/// What a tool run reports: its output when it succeeded, else its error (empty when absent).
pub open spec fn run_text(success: bool, output: Option<String>, error: Option<String>) -> Seq<char> {
    if success {
        match output {
            Some(o) => o@,
            None => Seq::empty(),
        }
    } else {
        match error {
            Some(e) => e@,
            None => Seq::empty(),
        }
    }
}

/// Whether every step's output reports success (a plan with no steps succeeds).
pub fn all_outputs_succeeded(outputs: &Vec<ToolOutput>) -> (b: bool)
    ensures
        b == (forall|i: int| 0 <= i < outputs@.len() ==> #[trigger] outputs@[i].success),
{
    let mut i: usize = 0;
    while i < outputs.len()
        invariant
            i <= outputs@.len(),
            forall|k: int| 0 <= k < i ==> #[trigger] outputs@[k].success,
        decreases outputs.len() - i,
    {
        if !outputs[i].success {
            return false;
        }
        i = i + 1;
    }
    true
}

/// The text and outcome of a planned step: what the tool reported, or `Error: <reason>` when
/// it could not run.
pub fn planned_step_output(result: &Result<(bool, Option<String>, Option<String>), String>) -> (r: (
    String,
    bool,
))
    ensures
        match *result {
            Ok((ok, out, err)) => r.0@ == run_text(ok, out, err) && r.1 == ok,
            Err(e) => r.0@ == "Error: "@ + e@ && !r.1,
        },
{
    match result {
        Ok((ok, out, err)) => {
            let text = if *ok {
                match out {
                    Some(o) => o.clone(),
                    None => String::new(),
                }
            } else {
                match err {
                    Some(e) => e.clone(),
                    None => String::new(),
                }
            };
            (text, *ok)
        },
        Err(e) => {
            let mut s = String::new();
            push_str(&mut s, "Error: ");
            push_str(&mut s, e.as_str());
            (s, false)
        },
    }
}

/// `- <tool>: <content>` lines, one per output.
pub open spec fn tool_summary(outputs: Seq<ToolOutput>) -> Seq<char>
    decreases outputs.len(),
{
    if outputs.len() == 0 {
        Seq::empty()
    } else if outputs.len() == 1 {
        "- "@ + outputs[0].tool_name@ + ": "@ + outputs[0].content@
    } else {
        tool_summary(outputs.drop_last()) + "\n"@ + "- "@ + outputs.last().tool_name@ + ": "@
            + outputs.last().content@
    }
}

/// `### <tool>` sections, one per output, separated by blank lines.
pub open spec fn tool_detail(outputs: Seq<ToolOutput>) -> Seq<char>
    decreases outputs.len(),
{
    if outputs.len() == 0 {
        Seq::empty()
    } else if outputs.len() == 1 {
        "### "@ + outputs[0].tool_name@ + "\n"@ + outputs[0].content@ + "\n"@
    } else {
        tool_detail(outputs.drop_last()) + "\n"@ + "### "@ + outputs.last().tool_name@ + "\n"@
            + outputs.last().content@ + "\n"@
    }
}

pub fn plan_tool_summary(outputs: &Vec<ToolOutput>) -> (r: String)
    ensures
        r@ == tool_summary(outputs@),
{
    let mut s = String::new();
    let mut i: usize = 0;
    while i < outputs.len()
        invariant
            i <= outputs@.len(),
            s@ == tool_summary(outputs@.take(i as int)),
        decreases outputs.len() - i,
    {
        assert(outputs@.take(i + 1).drop_last() =~= outputs@.take(i as int));
        if i > 0 {
            push_str(&mut s, "\n");
        }
        push_str(&mut s, "- ");
        push_str(&mut s, outputs[i].tool_name.as_str());
        push_str(&mut s, ": ");
        push_str(&mut s, outputs[i].content.as_str());
        assert(s@ =~= tool_summary(outputs@.take(i + 1)));
        i = i + 1;
    }
    assert(outputs@.take(i as int) =~= outputs@);
    s
}

pub fn plan_tool_detail(outputs: &Vec<ToolOutput>) -> (r: String)
    ensures
        r@ == tool_detail(outputs@),
{
    let mut s = String::new();
    let mut i: usize = 0;
    while i < outputs.len()
        invariant
            i <= outputs@.len(),
            s@ == tool_detail(outputs@.take(i as int)),
        decreases outputs.len() - i,
    {
        assert(outputs@.take(i + 1).drop_last() =~= outputs@.take(i as int));
        if i > 0 {
            push_str(&mut s, "\n");
        }
        push_str(&mut s, "### ");
        push_str(&mut s, outputs[i].tool_name.as_str());
        push_str(&mut s, "\n");
        push_str(&mut s, outputs[i].content.as_str());
        push_str(&mut s, "\n");
        assert(s@ =~= tool_detail(outputs@.take(i + 1)));
        i = i + 1;
    }
    assert(outputs@.take(i as int) =~= outputs@);
    s
}

/// The request that asks the model for a diagnosis from a plan's results.
pub open spec fn spec_reasoning_prompt(query: Seq<char>, reasoning: Seq<char>, summary: Seq<char>) -> Seq<char> {
    "User question: "@ + query + "\n\nLLM planner analysis: "@ + reasoning + "\n\nQuery results:\n"@
        + summary
        + "\n\nSynthesize the information above and provide a final diagnosis and solution."@
}

pub fn planner_reasoning_prompt(query: &str, reasoning: &str, summary: &str) -> (r: String)
    ensures
        r@ == spec_reasoning_prompt(query@, reasoning@, summary@),
{
    let mut s = String::new();
    push_str(&mut s, "User question: ");
    push_str(&mut s, query);
    push_str(&mut s, "\n\nLLM planner analysis: ");
    push_str(&mut s, reasoning);
    push_str(&mut s, "\n\nQuery results:\n");
    push_str(&mut s, summary);
    push_str(&mut s, "\n\nSynthesize the information above and provide a final diagnosis and solution.");
    s
}

/// The plan report when the model gives no diagnosis: with a summarizer that failed, a request
/// to review by hand; without one, the status of the steps.
pub open spec fn spec_plan_report(reasoning: Seq<char>, detail: Seq<char>, summarizer_failed: bool, success: bool) -> Seq<
    char,
> {
    "## Diagnosis\n\n"@ + reasoning + "\n\n"@ + "**Results**:\n"@ + detail + "\n\n"@ + if summarizer_failed {
        "**Suggestion**: Please review the results above manually."@
    } else {
        "**Status**: "@ + if success {
            "partial success"@
        } else {
            "issues found"@
        }
    }
}

pub fn plan_report(reasoning: &str, detail: &str, summarizer_failed: bool, success: bool) -> (r: String)
    ensures
        r@ == spec_plan_report(reasoning@, detail@, summarizer_failed, success),
{
    let mut s = String::new();
    push_str(&mut s, "## Diagnosis\n\n");
    push_str(&mut s, reasoning);
    push_str(&mut s, "\n\n");
    push_str(&mut s, "**Results**:\n");
    push_str(&mut s, detail);
    push_str(&mut s, "\n\n");
    if summarizer_failed {
        push_str(&mut s, "**Suggestion**: Please review the results above manually.");
    } else {
        push_str(&mut s, "**Status**: ");
        if success {
            push_str(&mut s, "partial success");
        } else {
            push_str(&mut s, "issues found");
        }
    }
    assert(s@ =~= spec_plan_report(reasoning@, detail@, summarizer_failed, success));
    s
}

} // verus!

verus! {

/// The parameters a skill gets from the intent: pod, namespace and cluster, when known.
pub open spec fn spec_skill_params(e: IntentEntities) -> Seq<(Seq<char>, Seq<char>)> {
    (match e.pod_name {
        Some(p) => seq![("pod_name"@, p@)],
        None => Seq::empty(),
    }) + (match e.namespace {
        Some(n) => seq![("namespace"@, n@)],
        None => Seq::empty(),
    }) + (match e.cluster {
        Some(c) => seq![("cluster"@, c@)],
        None => Seq::empty(),
    })
}

pub fn skill_params(e: &IntentEntities) -> (r: Vec<(String, String)>)
    ensures
        pairs_view(r@) == spec_skill_params(*e),
{
    let mut r: Vec<(String, String)> = Vec::new();
    if let Some(p) = &e.pod_name {
        r.push(("pod_name".to_string(), p.clone()));
    }
    if let Some(n) = &e.namespace {
        r.push(("namespace".to_string(), n.clone()));
    }
    if let Some(c) = &e.cluster {
        r.push(("cluster".to_string(), c.clone()));
    }
    assert(pairs_view(r@) =~= spec_skill_params(*e));
    r
}

/// How a skill is carried out.
#[derive(Debug, Clone, Copy, PartialEq, Eq, Structural)]
pub enum SkillMode {
    /// Run the tools it declares.
    Tools,
    /// Let the model follow its document, running shell steps.
    ModelLoop,
    /// The model loop is asked for but there is no model.
    NoModel,
    /// The skill has a document but automatic execution is off.
    ExecDisabled,
    /// The skill has neither tools nor a document.
    NoTools,
}

/// Tools first; then the model loop for a document when execution is on; a document with
/// execution off is reported as such; otherwise there is nothing to run.
pub open spec fn spec_skill_mode(has_tools: bool, exec_enabled: bool, has_document: bool, has_model: bool) -> SkillMode {
    if has_tools {
        SkillMode::Tools
    } else if exec_enabled && has_document {
        if has_model {
            SkillMode::ModelLoop
        } else {
            SkillMode::NoModel
        }
    } else if has_document && !exec_enabled {
        SkillMode::ExecDisabled
    } else {
        SkillMode::NoTools
    }
}

pub fn skill_mode(has_tools: bool, exec_enabled: bool, has_document: bool, has_model: bool) -> (m: SkillMode)
    ensures
        m == spec_skill_mode(has_tools, exec_enabled, has_document, has_model),
{
    if has_tools {
        SkillMode::Tools
    } else if exec_enabled && has_document {
        if has_model {
            SkillMode::ModelLoop
        } else {
            SkillMode::NoModel
        }
    } else if has_document && !exec_enabled {
        SkillMode::ExecDisabled
    } else {
        SkillMode::NoTools
    }
}

/// Appends a tool's section, `[<tool>]`, its output and a blank line, to a skill's output.
pub fn push_tool_section(output: &mut String, tool_name: &str, content: &str)
    ensures
        final(output)@ == old(output)@ + "["@ + tool_name@ + "]\n"@ + content@ + "\n\n"@,
{
    push_str(output, "[");
    push_str(output, tool_name);
    push_str(output, "]\n");
    push_str(output, content);
    push_str(output, "\n\n");
}

/// The label of the `i`-th (from zero) shell step of a model loop.
pub fn shell_step_label(i: usize) -> (r: String)
    requires
        i < usize::MAX,
    ensures
        r@ == "shell_step_"@ + decimal((i + 1) as nat),
{
    let mut s = String::new();
    push_str(&mut s, "shell_step_");
    push_str(&mut s, u64_to_decimal((i + 1) as u64).as_str());
    s
}

/// A shell step as shown: its command in a text block, then its output.
pub fn shell_step_body(command: &str, output: &str) -> (r: String)
    ensures
        r@ == "```text\n"@ + command@ + "\n```\n\n"@ + output@,
{
    let mut s = String::new();
    push_str(&mut s, "```text\n");
    push_str(&mut s, command);
    push_str(&mut s, "\n```\n\n");
    push_str(&mut s, output);
    s
}

/// One line of conversation history as the follow-up context shows it.
pub open spec fn history_line(turn: (String, String)) -> Seq<char> {
    turn.0@ + ": "@ + prefix_chars(turn.1@, 200)
}

/// The history lines of the last `n` turns, newest first.
pub open spec fn recent_lines(h: Seq<(String, String)>, n: nat) -> Seq<Seq<char>>
    decreases n,
{
    if n == 0 || h.len() == 0 {
        Seq::empty()
    } else {
        seq![history_line(h.last())] + recent_lines(h.drop_last(), (n - 1) as nat)
    }
}

/// Lines joined by newlines.
pub open spec fn join_lines(ls: Seq<Seq<char>>) -> Seq<char>
    decreases ls.len(),
{
    if ls.len() == 0 {
        Seq::empty()
    } else if ls.len() == 1 {
        ls[0]
    } else {
        join_lines(ls.drop_last()) + "\n"@ + ls.last()
    }
}

/// The last six turns, newest first, one per line.
pub open spec fn recent_history(h: Seq<(String, String)>, n: nat) -> Seq<char> {
    join_lines(recent_lines(h, n))
}

proof fn lemma_recent_lines(h: Seq<(String, String)>, n: nat)
    ensures
        recent_lines(h, n).len() == (if n < h.len() { n } else { h.len() }),
        forall|k: int|
            0 <= k < recent_lines(h, n).len() ==> #[trigger] recent_lines(h, n)[k] == history_line(
                h[h.len() - 1 - k],
            ),
    decreases n,
{
    if n > 0 && h.len() > 0 {
        lemma_recent_lines(h.drop_last(), (n - 1) as nat);
        let r = recent_lines(h, n);
        assert forall|k: int| 0 <= k < r.len() implies #[trigger] r[k] == history_line(
            h[h.len() - 1 - k],
        ) by {
            if k > 0 {
                assert(r[k] == recent_lines(h.drop_last(), (n - 1) as nat)[k - 1]);
                assert(h.drop_last()[h.drop_last().len() - 1 - (k - 1)] == h[h.len() - 1 - k]);
            }
        }
    }
}

/// A short follow-up with its context: the current cluster and namespace, the recent
/// conversation, then the question.
pub open spec fn spec_followup_message(
    history: Seq<(String, String)>,
    cluster: Option<String>,
    namespace: Option<String>,
    message: Seq<char>,
) -> Seq<char> {
    "Context — cluster: "@ + (match cluster {
        Some(c) => c@,
        None => "unknown"@,
    }) + ", namespace: "@ + (match namespace {
        Some(n) => n@,
        None => "default"@,
    }) + "\nRecent conversation:\n"@ + recent_history(history, 6) + "\n\nCurrent question: "@ + message
}

/// Builds the follow-up message from the conversation history (role and content of each turn,
/// oldest first).
pub fn followup_message(
    history: &Vec<(String, String)>,
    cluster: &Option<String>,
    namespace: &Option<String>,
    message: &str,
) -> (r: String)
    ensures
        r@ == spec_followup_message(history@, *cluster, *namespace, message@),
{
    let mut s = String::new();
    push_str(&mut s, "Context — cluster: ");
    match cluster {
        Some(c) => push_str(&mut s, c.as_str()),
        None => push_str(&mut s, "unknown"),
    }
    push_str(&mut s, ", namespace: ");
    match namespace {
        Some(n) => push_str(&mut s, n.as_str()),
        None => push_str(&mut s, "default"),
    }
    push_str(&mut s, "\nRecent conversation:\n");
    let n: usize = if history.len() < 6 {
        history.len()
    } else {
        6
    };
    let mut lines: Vec<String> = Vec::new();
    let mut k: usize = 0;
    while k < n
        invariant
            k <= n,
            n <= history@.len(),
            n <= 6,
            lines@.len() == k,
            forall|j: int|
                0 <= j < k ==> (#[trigger] lines@[j])@ == history_line(history@[history@.len() - 1 - j]),
        decreases n - k,
    {
        let turn = &history[history.len() - 1 - k];
        let mut line = String::new();
        push_str(&mut line, turn.0.as_str());
        push_str(&mut line, ": ");
        let pre = take_chars_str(turn.1.as_str(), 200);
        push_str(&mut line, pre.as_str());
        lines.push(line);
        k = k + 1;
    }
    proof {
        lemma_recent_lines(history@, 6);
    }
    let ghost want = recent_lines(history@, 6);
    assert(want.len() == n);
    let ghost head = s@;
    let mut i: usize = 0;
    while i < lines.len()
        invariant
            i <= lines@.len(),
            lines@.len() == want.len(),
            forall|j: int| 0 <= j < lines@.len() ==> (#[trigger] lines@[j])@ == want[j],
            s@ == head + join_lines(want.take(i as int)),
        decreases lines.len() - i,
    {
        assert(want.take(i + 1).drop_last() =~= want.take(i as int));
        if i > 0 {
            push_str(&mut s, "\n");
        } else {
            assert(want.take(0) =~= Seq::<Seq<char>>::empty());
        }
        push_str(&mut s, lines[i].as_str());
        assert(s@ =~= head + join_lines(want.take(i + 1)));
        i = i + 1;
    }
    assert(want.take(i as int) =~= want);
    push_str(&mut s, "\n\nCurrent question: ");
    push_str(&mut s, message);
    s
}

} // verus!

verus! {

/// Fills the intent's cluster and namespace from the session when the message named none.
pub fn inherit_session_context(
    entities: &mut IntentEntities,
    current_cluster: &Option<String>,
    current_namespace: &Option<String>,
)
    ensures
        final(entities).cluster == (match old(entities).cluster {
            Some(c) => Some(c),
            None => *current_cluster,
        }),
        final(entities).namespace == (match old(entities).namespace {
            Some(n) => Some(n),
            None => *current_namespace,
        }),
        final(entities).pod_name == old(entities).pod_name,
        final(entities).deployment_name == old(entities).deployment_name,
        final(entities).service_name == old(entities).service_name,
        final(entities).time_range == old(entities).time_range,
        final(entities).query == old(entities).query,
        final(entities).labels == old(entities).labels,
{
    if entities.cluster.is_none() {
        entities.cluster = copy_opt_string(current_cluster);
    }
    if entities.namespace.is_none() {
        entities.namespace = copy_opt_string(current_namespace);
    }
}

} // verus!
