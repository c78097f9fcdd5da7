//! Intent parsing by rules: regular expressions pick the intent, keywords score it, and
//! capture groups fill in the entities. A model's classification, when the caller has one,
//! is merged over the rule-based entities.
//!
//! The score of a rule is one half plus a tenth per keyword found, capped at one; a rule is
//! taken only when its score exceeds one half, that is when at least one keyword is found.
//! The library reports the keyword count; the score itself is computed by the caller.

use crate::json::str_view;
use crate::llm::traits::IntentEntities as ClassifiedEntities;
use crate::patterns::{capture_group, capture_group_of, is_match, regex_is_match};
use crate::text::{contains, lowercase, push_str, push_string, str_contains, str_eq, strings_view, to_lowercase};
use crate::types::agent::{IntentEntities, IntentType};
use std::collections::HashMap;
use vstd::prelude::*;

verus! {

/// A rule: the intent it stands for, the keywords that score it, the expression that selects
/// it and the expression whose first two groups name a deployment and a namespace.
pub struct IntentPattern {
    pub intent_type: IntentType,
    pub keywords: Vec<String>,
    pub regex: String,
    pub entity_extractor: String,
}

/// A rule as plain values.
pub struct RuleModel {
    pub intent_type: IntentType,
    pub keywords: Seq<Seq<char>>,
    pub regex: Seq<char>,
    pub extractor: Seq<char>,
}

pub open spec fn rule_view(p: IntentPattern) -> RuleModel {
    RuleModel {
        intent_type: p.intent_type,
        keywords: strings_view(p.keywords@),
        regex: p.regex@,
        extractor: p.entity_extractor@,
    }
}

pub open spec fn rules_view(s: Seq<IntentPattern>) -> Seq<RuleModel> {
    Seq::new(s.len(), |i: int| rule_view(s[i]))
}

/// The rules, in the order they are tried.
pub open spec fn rule_table() -> Seq<RuleModel> {
    seq![
        RuleModel {
            intent_type: IntentType::Logs,
            keywords: seq!["log"@, "日志"@, "查看日志"@, "tail"@],
            regex: r"(?i)(?:get|show|view|tail|查看|日志|log)\s+(?:.*?)(?:log|日志)"@,
            extractor: r"(?i)(?:pod|pods|namespace|ns)\s*[:=]?\s*(\S+)"@,
        },
        RuleModel {
            intent_type: IntentType::Metrics,
            keywords: seq!["metric"@, "指标"@, "监控"@, "promql"@],
            regex: r"(?i)(?:get|show|view|metric|指标|监控)\s+"@,
            extractor: r"(?i)(?:metric|prometheus|vm)\s*[:=]?\s*(\S+)"@,
        },
        RuleModel {
            intent_type: IntentType::Health,
            keywords: seq!["health"@, "状态"@, "健康"@, "检查"@, "status"@],
            regex: r"(?i)(?:health|status|状态|健康|检查)\s*"@,
            extractor: r"(?i)(?:cluster|k8s|kubernetes)\s*[:=]?\s*(\S+)"@,
        },
        RuleModel {
            intent_type: IntentType::Debug,
            keywords: seq!["debug"@, "troubleshoot"@, "排查"@, "问题"@, "调查"@, "为什么"@],
            regex: r"(?i)(?:debug|troubleshoot|排查|问题|调查|为什么)\s*"@,
            extractor: r"(?i)(?:pod|pods|svc|service|deploy)\s*[:=]?\s*(\S+)"@,
        },
        RuleModel {
            intent_type: IntentType::Query,
            keywords: seq!["query"@, "查询"@, "search"@, "搜索"@],
            regex: r"(?i)(?:query|search|查询|搜索)\s*"@,
            extractor: r"(?i)(?:query|q)\s*[:=]?\s*(.+)"@,
        },
        RuleModel {
            intent_type: IntentType::Scale,
            keywords: seq!["scale"@, "扩缩容"@, "replica"@, "扩容"@, "缩容"@],
            regex: r"(?i)(?:scale|扩缩容|replica|扩容|缩容)\s*"@,
            extractor: r"(?i)(?:deploy|deployment)\s*[:=]?\s*(\S+)\s*(?:replicas?|:|to)\s*(\d+)"@,
        },
    ]
}

/// How many of the keywords occur (lower-cased) in the lower-cased message.
pub open spec fn keyword_hits(kws: Seq<Seq<char>>, lower: Seq<char>) -> nat
    decreases kws.len(),
{
    if kws.len() == 0 {
        0
    } else {
        keyword_hits(kws.drop_last(), lower) + if contains(lower, lowercase(kws.last())) {
            1nat
        } else {
            0nat
        }
    }
}

/// A rule is taken when its expression matches and some keyword is found.
pub open spec fn rule_fires(r: RuleModel, lower: Seq<char>) -> bool {
    regex_is_match(r.regex, lower) == Some(true) && keyword_hits(r.keywords, lower) >= 1
}

/// The first rule at or after `i` that is taken.
pub open spec fn first_rule(rules: Seq<RuleModel>, lower: Seq<char>, i: nat) -> Option<nat>
    decreases rules.len() - i,
{
    if i >= rules.len() {
        None
    } else if rule_fires(rules[i as int], lower) {
        Some(i)
    } else {
        first_rule(rules, lower, i + 1)
    }
}

/// A keyword of a list that occurs in the text counts as a hit.
proof fn lemma_hits_of_listed(kws: Seq<Seq<char>>, lower: Seq<char>)
    ensures
        forall|j: int| 0 <= j < kws.len() && #[trigger] contains(lower, lowercase(kws[j])) ==> keyword_hits(kws, lower) >= 1,
    decreases kws.len(),
{
    if kws.len() > 0 {
        lemma_hits_of_listed(kws.drop_last(), lower);
        assert forall|j: int| 0 <= j < kws.len() && #[trigger] contains(lower, lowercase(kws[j])) implies keyword_hits(kws, lower) >= 1 by {
            if j < kws.len() - 1 {
                assert(kws.drop_last()[j] == kws[j]);
            }
        }
    }
}

/// The rules are tried in the order logs, metrics, health, debug, query, scale, and each rule
/// recognises its own keywords: a lower-cased message that holds any keyword of a rule
/// (lower-cased) counts at least one keyword hit for that rule. For the logs rule these are
/// "log", "日志", "查看日志" and "tail", so an English request naming logs is one.
pub proof fn rules_recognise_their_keywords(lower: Seq<char>)
    ensures
        rule_table().len() == 6,
        rule_table()[0].intent_type == IntentType::Logs,
        rule_table()[1].intent_type == IntentType::Metrics,
        rule_table()[2].intent_type == IntentType::Health,
        rule_table()[3].intent_type == IntentType::Debug,
        rule_table()[4].intent_type == IntentType::Query,
        rule_table()[5].intent_type == IntentType::Scale,
        (contains(lower, lowercase("log"@)) || contains(lower, lowercase("日志"@)) || contains(lower, lowercase("查看日志"@)) || contains(lower, lowercase("tail"@))) ==> keyword_hits(rule_table()[0].keywords, lower) >= 1,
        (contains(lower, lowercase("metric"@)) || contains(lower, lowercase("指标"@)) || contains(lower, lowercase("监控"@)) || contains(lower, lowercase("promql"@))) ==> keyword_hits(rule_table()[1].keywords, lower) >= 1,
        (contains(lower, lowercase("health"@)) || contains(lower, lowercase("状态"@)) || contains(lower, lowercase("健康"@)) || contains(lower, lowercase("检查"@)) || contains(lower, lowercase("status"@))) ==> keyword_hits(rule_table()[2].keywords, lower) >= 1,
        (contains(lower, lowercase("debug"@)) || contains(lower, lowercase("troubleshoot"@)) || contains(lower, lowercase("排查"@)) || contains(lower, lowercase("问题"@)) || contains(lower, lowercase("调查"@)) || contains(lower, lowercase("为什么"@))) ==> keyword_hits(rule_table()[3].keywords, lower) >= 1,
        (contains(lower, lowercase("query"@)) || contains(lower, lowercase("查询"@)) || contains(lower, lowercase("search"@)) || contains(lower, lowercase("搜索"@))) ==> keyword_hits(rule_table()[4].keywords, lower) >= 1,
        (contains(lower, lowercase("scale"@)) || contains(lower, lowercase("扩缩容"@)) || contains(lower, lowercase("replica"@)) || contains(lower, lowercase("扩容"@)) || contains(lower, lowercase("缩容"@))) ==> keyword_hits(rule_table()[5].keywords, lower) >= 1,
{
    lemma_hits_of_listed(rule_table()[0].keywords, lower);
    lemma_hits_of_listed(rule_table()[1].keywords, lower);
    lemma_hits_of_listed(rule_table()[2].keywords, lower);
    lemma_hits_of_listed(rule_table()[3].keywords, lower);
    lemma_hits_of_listed(rule_table()[4].keywords, lower);
    lemma_hits_of_listed(rule_table()[5].keywords, lower);
}

/// A message that the logs rule's expression matches and that names logs ("log", "日志",
/// "查看日志" or "tail", lower-cased) is a logs request: the logs rule is the first tried.
pub proof fn log_requests_are_logs(message: Seq<char>)
    requires
        regex_is_match(r"(?i)(?:get|show|view|tail|查看|日志|log)\s+(?:.*?)(?:log|日志)"@, lowercase(message))
            == Some(true),
        contains(lowercase(message), lowercase("log"@)) || contains(lowercase(message), lowercase("日志"@))
            || contains(lowercase(message), lowercase("查看日志"@)) || contains(
            lowercase(message),
            lowercase("tail"@),
        ),
    ensures
        first_rule(rule_table(), lowercase(message), 0) == Some(0nat),
        rule_table()[0].intent_type == IntentType::Logs,
{
    rules_recognise_their_keywords(lowercase(message));
}

/// The entity fields the rules fill, as plain values.
pub struct EntitiesModel {
    pub namespace: Option<Seq<char>>,
    pub pod_name: Option<Seq<char>>,
    pub deployment_name: Option<Seq<char>>,
    pub service_name: Option<Seq<char>>,
    pub cluster: Option<Seq<char>>,
}

pub open spec fn entities_view(e: IntentEntities) -> EntitiesModel {
    EntitiesModel {
        namespace: str_view(e.namespace),
        pod_name: str_view(e.pod_name),
        deployment_name: str_view(e.deployment_name),
        service_name: str_view(e.service_name),
        cluster: str_view(e.cluster),
    }
}

/// No entity, no label, no time range, no query.
pub open spec fn bare_entities(e: IntentEntities) -> bool {
    &&& e.time_range is None
    &&& e.query is None
    &&& e.labels@ == Map::<String, String>::empty()
}

pub open spec fn no_entities() -> EntitiesModel {
    EntitiesModel {
        namespace: None,
        pod_name: None,
        deployment_name: None,
        service_name: None,
        cluster: None,
    }
}

pub open spec fn pod_pattern() -> Seq<char> {
    r"(?i)(?:pod|pods)\s*[:=]?\s*(\S+)"@
}

pub open spec fn namespace_pattern() -> Seq<char> {
    r"(?i)(?:namespace|ns)\s*[:=]?\s*(\S+)"@
}

pub open spec fn cluster_pattern() -> Seq<char> {
    r"(?i)(?:cluster)\s*[:=]?\s*(\S+)"@
}

pub open spec fn service_pattern() -> Seq<char> {
    r"(?i)(?:service|svc)\s*[:=]?\s*(\S+)"@
}

/// Cluster words and the cluster each names.
pub open spec fn cluster_keywords() -> Seq<(Seq<char>, Seq<char>)> {
    seq![
        ("prod"@, "prod"@),
        ("production"@, "prod"@),
        ("pre-prod"@, "pre-prod"@),
        ("preprod"@, "pre-prod"@),
        ("staging"@, "staging"@),
        ("test"@, "test"@),
        ("dev"@, "dev"@),
        ("development"@, "dev"@),
    ]
}

/// The expression that finds a cluster word: "<word>集群", "集群<word> ", "cluster <word>" or
/// the word ending the message.
pub open spec fn cluster_keyword_pattern(k: Seq<char>) -> Seq<char> {
    "(?i)(?:"@ + k + "集群|"@ + k + "集群|集群"@ + k + r"\s|cluster\s*"@ + k + "|"@ + k + "$)"@
}

/// The cluster named by the first cluster word found, from the `i`-th on.
pub open spec fn keyword_cluster(lower: Seq<char>, i: nat) -> Option<Seq<char>>
    decreases cluster_keywords().len() - i,
{
    if i >= cluster_keywords().len() {
        None
    } else if regex_is_match(cluster_keyword_pattern(cluster_keywords()[i as int].0), lower) == Some(
        true,
    ) {
        Some(cluster_keywords()[i as int].1)
    } else {
        keyword_cluster(lower, i + 1)
    }
}

/// The entities the common rules find in a message.
pub open spec fn rules_entities(message: Seq<char>) -> EntitiesModel {
    EntitiesModel {
        namespace: capture_group(namespace_pattern(), message, 1),
        pod_name: capture_group(pod_pattern(), message, 1),
        deployment_name: None,
        service_name: capture_group(service_pattern(), message, 1),
        cluster: match keyword_cluster(lowercase(message), 0) {
            Some(c) => Some(c),
            None => capture_group(cluster_pattern(), message, 1),
        },
    }
}

pub open spec fn or_else(a: Option<Seq<char>>, b: Option<Seq<char>>) -> Option<Seq<char>> {
    match a {
        Some(x) => Some(x),
        None => b,
    }
}

/// The entities a taken rule yields: its extractor's first group as the deployment, its
/// second as the namespace, and the common rules for the rest.
pub open spec fn pattern_entities(message: Seq<char>, r: RuleModel) -> EntitiesModel {
    let common = rules_entities(message);
    EntitiesModel {
        namespace: or_else(capture_group(r.extractor, message, 2), common.namespace),
        pod_name: common.pod_name,
        deployment_name: capture_group(r.extractor, message, 1),
        service_name: common.service_name,
        cluster: common.cluster,
    }
}

/// The intent the rules give a message: its type, the number of keywords found (zero for an
/// unknown intent), its entities and the message itself.
pub struct RuleIntent {
    pub intent_type: IntentType,
    pub keyword_hits: usize,
    pub entities: IntentEntities,
    pub raw_query: String,
}

/// Parses user messages into intents by rules.
pub struct IntentParser {
    patterns: Vec<IntentPattern>,
}

fn empty_entities() -> (e: IntentEntities)
    ensures
        entities_view(e) == no_entities(),
        bare_entities(e),
{
    IntentEntities {
        namespace: None,
        pod_name: None,
        deployment_name: None,
        service_name: None,
        cluster: None,
        time_range: None,
        query: None,
        labels: HashMap::new(),
    }
}

fn words(list: &[&str]) -> (v: Vec<String>)
    ensures
        strings_view(v@) == Seq::new(list@.len(), |i: int| list@[i]@),
{
    let mut v: Vec<String> = Vec::new();
    let mut i: usize = 0;
    while i < list.len()
        invariant
            i <= list@.len(),
            strings_view(v@) == Seq::new(i as nat, |j: int| list@[j]@),
        decreases list.len() - i,
    {
        push_string(&mut v, list[i]);
        assert(strings_view(v@) =~= Seq::new((i + 1) as nat, |j: int| list@[j]@));
        i = i + 1;
    }
    v
}

fn rule(intent_type: IntentType, keywords: Vec<String>, regex: &str, extractor: &str) -> (p:
    IntentPattern)
    ensures
        rule_view(p) == (RuleModel {
            intent_type,
            keywords: strings_view(keywords@),
            regex: regex@,
            extractor: extractor@,
        }),
{
    IntentPattern {
        intent_type,
        keywords,
        regex: regex.to_string(),
        entity_extractor: extractor.to_string(),
    }
}

/// Counts the keywords of a rule found in the lower-cased message.
fn calculate_confidence(lower: &str, p: &IntentPattern) -> (n: usize)
    ensures
        n == keyword_hits(strings_view(p.keywords@), lower@),
{
    let mut n: usize = 0;
    let mut i: usize = 0;
    while i < p.keywords.len()
        invariant
            i <= p.keywords@.len(),
            n == keyword_hits(strings_view(p.keywords@).take(i as int), lower@),
            n <= i,
        decreases p.keywords.len() - i,
    {
        assert(strings_view(p.keywords@).take(i + 1).drop_last() =~= strings_view(
            p.keywords@,
        ).take(i as int));
        let k = to_lowercase(p.keywords[i].as_str());
        if str_contains(lower, k.as_str()) {
            n = n + 1;
        }
        i = i + 1;
    }
    assert(strings_view(p.keywords@).take(i as int) =~= strings_view(p.keywords@));
    n
}

/// The expression for one cluster word.
fn cluster_keyword_regex(k: &str) -> (r: String)
    ensures
        r@ == cluster_keyword_pattern(k@),
{
    let mut s = String::new();
    push_str(&mut s, "(?i)(?:");
    push_str(&mut s, k);
    push_str(&mut s, "集群|");
    push_str(&mut s, k);
    push_str(&mut s, "集群|集群");
    push_str(&mut s, k);
    push_str(&mut s, r"\s|cluster\s*");
    push_str(&mut s, k);
    push_str(&mut s, "|");
    push_str(&mut s, k);
    push_str(&mut s, "$)");
    assert(s@ =~= cluster_keyword_pattern(k@));
    s
}

/// The cluster named by the first cluster word found in the lower-cased message.
fn find_cluster_keyword(lower: &str) -> (r: Option<String>)
    ensures
        str_view(r) == keyword_cluster(lower@, 0),
{
    let words: [&str; 8] = [
        "prod",
        "production",
        "pre-prod",
        "preprod",
        "staging",
        "test",
        "dev",
        "development",
    ];
    let names: [&str; 8] = ["prod", "prod", "pre-prod", "pre-prod", "staging", "test", "dev", "dev"];
    assert(forall|j: int|
        0 <= j < 8 ==> (#[trigger] cluster_keywords()[j]) == (words@[j]@, names@[j]@));
    let mut i: usize = 0;
    while i < 8
        invariant
            i <= 8,
            forall|j: int|
                0 <= j < 8 ==> (#[trigger] cluster_keywords()[j]) == (words@[j]@, names@[j]@),
            keyword_cluster(lower@, 0) == keyword_cluster(lower@, i as nat),
        decreases 8 - i,
    {
        let pattern = cluster_keyword_regex(words[i]);
        if is_match(pattern.as_str(), lower) == Some(true) {
            return Some(names[i].to_string());
        }
        i = i + 1;
    }
    None
}

impl IntentParser {
    /// The parser holds the rule table.
    pub closed spec fn wf(&self) -> bool {
        rules_view(self.patterns@) == rule_table()
    }

    /// The rules as plain values.
    pub closed spec fn rules(&self) -> Seq<RuleModel> {
        rules_view(self.patterns@)
    }

    pub fn new() -> (p: IntentParser)
        ensures
            p.wf(),
    {
        IntentParser { patterns: Self::build_patterns() }
    }

    /// The rule table.
    pub fn build_patterns() -> (v: Vec<IntentPattern>)
        ensures
            rules_view(v@) == rule_table(),
    {
        let mut v: Vec<IntentPattern> = Vec::new();
        let k0 = words(&["log", "日志", "查看日志", "tail"]);
        assert(strings_view(k0@) =~= seq!["log"@, "日志"@, "查看日志"@, "tail"@]);
        v.push(rule(IntentType::Logs, k0, r"(?i)(?:get|show|view|tail|查看|日志|log)\s+(?:.*?)(?:log|日志)", r"(?i)(?:pod|pods|namespace|ns)\s*[:=]?\s*(\S+)"));
        let k1 = words(&["metric", "指标", "监控", "promql"]);
        assert(strings_view(k1@) =~= seq!["metric"@, "指标"@, "监控"@, "promql"@]);
        v.push(rule(IntentType::Metrics, k1, r"(?i)(?:get|show|view|metric|指标|监控)\s+", r"(?i)(?:metric|prometheus|vm)\s*[:=]?\s*(\S+)"));
        let k2 = words(&["health", "状态", "健康", "检查", "status"]);
        assert(strings_view(k2@) =~= seq!["health"@, "状态"@, "健康"@, "检查"@, "status"@]);
        v.push(rule(IntentType::Health, k2, r"(?i)(?:health|status|状态|健康|检查)\s*", r"(?i)(?:cluster|k8s|kubernetes)\s*[:=]?\s*(\S+)"));
        let k3 = words(&["debug", "troubleshoot", "排查", "问题", "调查", "为什么"]);
        assert(strings_view(k3@) =~= seq!["debug"@, "troubleshoot"@, "排查"@, "问题"@, "调查"@, "为什么"@]);
        v.push(rule(IntentType::Debug, k3, r"(?i)(?:debug|troubleshoot|排查|问题|调查|为什么)\s*", r"(?i)(?:pod|pods|svc|service|deploy)\s*[:=]?\s*(\S+)"));
        let k4 = words(&["query", "查询", "search", "搜索"]);
        assert(strings_view(k4@) =~= seq!["query"@, "查询"@, "search"@, "搜索"@]);
        v.push(rule(IntentType::Query, k4, r"(?i)(?:query|search|查询|搜索)\s*", r"(?i)(?:query|q)\s*[:=]?\s*(.+)"));
        let k5 = words(&["scale", "扩缩容", "replica", "扩容", "缩容"]);
        assert(strings_view(k5@) =~= seq!["scale"@, "扩缩容"@, "replica"@, "扩容"@, "缩容"@]);
        v.push(rule(IntentType::Scale, k5, r"(?i)(?:scale|扩缩容|replica|扩容|缩容)\s*", r"(?i)(?:deploy|deployment)\s*[:=]?\s*(\S+)\s*(?:replicas?|:|to)\s*(\d+)"));
        assert(rules_view(v@) =~= rule_table());
        v
    }

    /// The entities the common rules find.
    pub fn extract_entities_by_rules(message: &str) -> (e: IntentEntities)
        ensures
            entities_view(e) == rules_entities(message@),
            bare_entities(e),
    {
        let mut e = empty_entities();
        e.pod_name = capture_group_of(r"(?i)(?:pod|pods)\s*[:=]?\s*(\S+)", message, 1);
        e.namespace = capture_group_of(r"(?i)(?:namespace|ns)\s*[:=]?\s*(\S+)", message, 1);
        e.cluster = capture_group_of(r"(?i)(?:cluster)\s*[:=]?\s*(\S+)", message, 1);
        let lower = to_lowercase(message);
        match find_cluster_keyword(lower.as_str()) {
            Some(c) => {
                e.cluster = Some(c);
            },
            None => {},
        }
        e.service_name = capture_group_of(r"(?i)(?:service|svc)\s*[:=]?\s*(\S+)", message, 1);
        e
    }

    /// The entities a taken rule yields.
    pub fn extract_entities(message: &str, p: &IntentPattern) -> (e: IntentEntities)
        ensures
            entities_view(e) == pattern_entities(message@, rule_view(*p)),
            bare_entities(e),
    {
        let common = Self::extract_entities_by_rules(message);
        let deployment = capture_group_of(p.entity_extractor.as_str(), message, 1);
        let namespace = capture_group_of(p.entity_extractor.as_str(), message, 2);
        IntentEntities {
            namespace: match namespace {
                Some(n) => Some(n),
                None => common.namespace,
            },
            pod_name: common.pod_name,
            deployment_name: deployment,
            service_name: common.service_name,
            cluster: common.cluster,
            time_range: None,
            query: None,
            labels: common.labels,
        }
    }

    /// Parses a message by the rules alone.
    pub fn parse_sync(&self, message: &str) -> (r: RuleIntent)
        requires
            self.wf(),
        ensures
            r.raw_query@ == message@,
            match first_rule(rule_table(), lowercase(message@), 0) {
                Some(i) => r.intent_type == rule_table()[i as int].intent_type && entities_view(r.entities)
                    == pattern_entities(message@, rule_table()[i as int]),
                None => r.intent_type == IntentType::Unknown && r.keyword_hits == 0,
            },
    {
        self.parse_by_rules(message)
    }

    /// Parses a message by the rules: the first rule whose expression matches the lower-cased
    /// message and whose keywords occur in it gives the intent; otherwise it is unknown.
    pub fn parse_by_rules(&self, message: &str) -> (r: RuleIntent)
        requires
            self.wf(),
        ensures
            r.raw_query@ == message@,
            bare_entities(r.entities),
            match first_rule(rule_table(), lowercase(message@), 0) {
                Some(i) => {
                    &&& r.intent_type == rule_table()[i as int].intent_type
                    &&& r.keyword_hits == keyword_hits(
                        rule_table()[i as int].keywords,
                        lowercase(message@),
                    )
                    &&& entities_view(r.entities) == pattern_entities(
                        message@,
                        rule_table()[i as int],
                    )
                },
                None => {
                    &&& r.intent_type == IntentType::Unknown
                    &&& r.keyword_hits == 0
                    &&& entities_view(r.entities) == no_entities()
                },
            },
    {
        let lower = to_lowercase(message);
        let mut i: usize = 0;
        while i < self.patterns.len()
            invariant
                i <= self.patterns@.len(),
                rules_view(self.patterns@) == rule_table(),
                lower@ == lowercase(message@),
                first_rule(rule_table(), lower@, 0) == first_rule(rule_table(), lower@, i as nat),
            decreases self.patterns.len() - i,
        {
            let p = &self.patterns[i];
            assert(rule_view(*p) == rule_table()[i as int]);
            if is_match(p.regex.as_str(), lower.as_str()) == Some(true) {
                let hits = calculate_confidence(lower.as_str(), p);
                if hits >= 1 {
                    let entities = Self::extract_entities(message, p);
                    return RuleIntent {
                        intent_type: p.intent_type,
                        keyword_hits: hits,
                        entities,
                        raw_query: message.to_string(),
                    };
                }
            }
            i = i + 1;
        }
        RuleIntent {
            intent_type: IntentType::Unknown,
            keyword_hits: 0,
            entities: empty_entities(),
            raw_query: message.to_string(),
        }
    }
}

/// The intent a model's label names (case aside).
pub open spec fn labelled_intent(l: Seq<char>) -> IntentType {
    if l == "logs"@ || l == "log"@ {
        IntentType::Logs
    } else if l == "metrics"@ || l == "metric"@ {
        IntentType::Metrics
    } else if l == "health"@ {
        IntentType::Health
    } else if l == "debug"@ {
        IntentType::Debug
    } else if l == "query"@ {
        IntentType::Query
    } else if l == "scale"@ {
        IntentType::Scale
    } else if l == "deploy"@ {
        IntentType::Deploy
    } else {
        IntentType::Unknown
    }
}

/// Maps a model's intent label to an intent type.
pub fn classified_intent_type(label: &str) -> (t: IntentType)
    ensures
        t == labelled_intent(lowercase(label@)),
{
    let l = to_lowercase(label);
    let s = l.as_str();
    if str_eq(s, "logs") || str_eq(s, "log") {
        IntentType::Logs
    } else if str_eq(s, "metrics") || str_eq(s, "metric") {
        IntentType::Metrics
    } else if str_eq(s, "health") {
        IntentType::Health
    } else if str_eq(s, "debug") {
        IntentType::Debug
    } else if str_eq(s, "query") {
        IntentType::Query
    } else if str_eq(s, "scale") {
        IntentType::Scale
    } else if str_eq(s, "deploy") {
        IntentType::Deploy
    } else {
        IntentType::Unknown
    }
}

fn prefer(a: &Option<String>, b: Option<String>) -> (r: Option<String>)
    ensures
        str_view(r) == or_else(str_view(*a), str_view(b)),
{
    match a {
        Some(x) => Some(x.clone()),
        None => b,
    }
}

/// The entities of a model-classified message: what the model found for the pod, namespace,
/// cluster and service wins over what the rules find.
pub fn merge_classified_entities(message: &str, classified: &ClassifiedEntities) -> (e:
    IntentEntities)
    ensures
        bare_entities(e),
        entities_view(e) == (EntitiesModel {
            pod_name: or_else(str_view(classified.pod_name), rules_entities(message@).pod_name),
            namespace: or_else(str_view(classified.namespace), rules_entities(message@).namespace),
            cluster: or_else(str_view(classified.cluster), rules_entities(message@).cluster),
            service_name: or_else(
                str_view(classified.service_name),
                rules_entities(message@).service_name,
            ),
            deployment_name: None,
        }),
{
    let rules = IntentParser::extract_entities_by_rules(message);
    IntentEntities {
        pod_name: prefer(&classified.pod_name, rules.pod_name),
        namespace: prefer(&classified.namespace, rules.namespace),
        cluster: prefer(&classified.cluster, rules.cluster),
        service_name: prefer(&classified.service_name, rules.service_name),
        deployment_name: None,
        time_range: None,
        query: None,
        labels: rules.labels,
    }
}

} // verus!
