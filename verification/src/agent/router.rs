//! Skill and MCP routing: which skills and tools an intent goes to, and how sure the router
//! is of each.
//!
//! Confidences are kept in hundredths: 90 stands for a confidence of 0.9.

use crate::json::str_view;
use crate::keyed::{find_key, has_key, keys_unique, lemma_lookup_at, lemma_lookup_push, lemma_lookup_update, lookup};
use crate::llm::summarizer::{intent_name, intent_type_name};
use crate::llm::traits::IntentEntities;
use crate::text::{char_count, contains, lowercase, str_contains, str_eq, to_lowercase};
use crate::types::agent::IntentType;
use crate::types::skill::SkillMetadata;
use vstd::prelude::*;

verus! {

pub open spec fn opt_tag(o: Option<String>) -> Seq<Seq<char>> {
    match o {
        Some(s) => seq![s@],
        None => Seq::empty(),
    }
}

/// Tags for a virtualization technology: itself, plus `gpu` and `vgpu` for HAMi and `gpu` for
/// vGPU.
pub open spec fn virtualization_tags(v: Seq<char>) -> Seq<Seq<char>> {
    if v == "hami"@ {
        seq![v, "gpu"@, "vgpu"@]
    } else if v == "vgpu"@ {
        seq![v, "gpu"@]
    } else {
        seq![v]
    }
}

/// Tags for a resource state that points at a known family of problems.
pub open spec fn state_tags(s: Seq<char>) -> Seq<Seq<char>> {
    if s == "pending"@ {
        seq!["pending"@, "scheduling"@]
    } else if s == "crashloop"@ {
        seq!["crashloop"@, "oom"@]
    } else if s == "oom"@ {
        seq!["oom"@, "memory"@]
    } else {
        Seq::empty()
    }
}

/// Domain tags of an intent: its domain, its virtualization (with the variants it implies), the
/// tags of its resource state, and its error keyword, in that order.
pub open spec fn spec_domain_tags(e: IntentEntities) -> Seq<Seq<char>> {
    opt_tag(e.domain) + (match e.virtualization {
        Some(v) => virtualization_tags(v@),
        None => Seq::empty(),
    }) + (match e.resource_state {
        Some(s) => state_tags(s@),
        None => Seq::empty(),
    }) + opt_tag(e.error_keyword)
}

pub open spec fn tags_view(v: Seq<String>) -> Seq<Seq<char>> {
    Seq::new(v.len(), |i: int| v[i]@)
}

fn push_tag(tags: &mut Vec<String>, t: &str)
    ensures
        tags_view(final(tags)@) == tags_view(old(tags)@).push(t@),
{
    tags.push(t.to_string());
    assert(tags_view(tags@) =~= tags_view(old(tags)@).push(t@));
}

/// Extracts the domain tags that route an intent to domain-specific skills.
pub fn intent_domain_tags(entities: &IntentEntities) -> (tags: Vec<String>)
    ensures
        tags_view(tags@) == spec_domain_tags(*entities),
{
    proof {
        reveal_strlit("hami");
        reveal_strlit("vgpu");
        reveal_strlit("pending");
        reveal_strlit("crashloop");
        reveal_strlit("oom");
        assert("hami"@[0] != "vgpu"@[0]);
        assert("pending"@[0] != "crashloop"@[0]);
        assert("pending"@[0] != "oom"@[0]);
        assert("crashloop"@[0] != "oom"@[0]);
    }
    let mut tags: Vec<String> = Vec::new();
    assert(tags_view(tags@) =~= Seq::<Seq<char>>::empty());
    if let Some(d) = &entities.domain {
        push_tag(&mut tags, d.as_str());
    }
    let ghost a = tags_view(tags@);
    assert(a =~= opt_tag(entities.domain));
    if let Some(v) = &entities.virtualization {
        push_tag(&mut tags, v.as_str());
        if str_eq(v.as_str(), "hami") {
            push_tag(&mut tags, "gpu");
            push_tag(&mut tags, "vgpu");
        } else if str_eq(v.as_str(), "vgpu") {
            push_tag(&mut tags, "gpu");
        }
        assert(tags_view(tags@) =~= a + virtualization_tags(v@));
    } else {
        assert(tags_view(tags@) =~= a + Seq::<Seq<char>>::empty());
    }
    let ghost b = tags_view(tags@);
    if let Some(s) = &entities.resource_state {
        if str_eq(s.as_str(), "pending") {
            push_tag(&mut tags, "pending");
            push_tag(&mut tags, "scheduling");
        } else if str_eq(s.as_str(), "crashloop") {
            push_tag(&mut tags, "crashloop");
            push_tag(&mut tags, "oom");
        } else if str_eq(s.as_str(), "oom") {
            push_tag(&mut tags, "oom");
            push_tag(&mut tags, "memory");
        }
        assert(tags_view(tags@) =~= b + state_tags(s@));
    } else {
        assert(tags_view(tags@) =~= b + Seq::<Seq<char>>::empty());
    }
    let ghost c = tags_view(tags@);
    if let Some(e) = &entities.error_keyword {
        push_tag(&mut tags, e.as_str());
        assert(tags_view(tags@) =~= c + opt_tag(entities.error_keyword));
    } else {
        assert(tags_view(tags@) =~= c + Seq::<Seq<char>>::empty());
    }
    tags
}

} // verus!

verus! {

/// A routing result: a skill, or a tool of an MCP server, with a confidence in hundredths.
#[derive(Debug, Clone)]
pub struct RouteResult {
    pub skill_name: Option<String>,
    pub mcp_server: Option<String>,
    pub tool_name: Option<String>,
    pub confidence: u32,
}

/// A routing result as plain values.
pub struct RouteModel {
    pub skill: Option<Seq<char>>,
    pub server: Option<Seq<char>>,
    pub tool: Option<Seq<char>>,
    pub confidence: u32,
}

pub open spec fn route_view(r: RouteResult) -> RouteModel {
    RouteModel {
        skill: str_view(r.skill_name),
        server: str_view(r.mcp_server),
        tool: str_view(r.tool_name),
        confidence: r.confidence,
    }
}

pub open spec fn routes_view(s: Seq<RouteResult>) -> Seq<RouteModel> {
    Seq::new(s.len(), |i: int| route_view(s[i]))
}

pub open spec fn skill_route(name: Seq<char>, confidence: u32) -> RouteModel {
    RouteModel { skill: Some(name), server: None, tool: None, confidence }
}

pub open spec fn mcp_route(server: Seq<char>, tool: Seq<char>, confidence: u32) -> RouteModel {
    RouteModel { skill: None, server: Some(server), tool: Some(tool), confidence }
}

impl RouteResult {
    pub fn skill(name: &str, confidence: u32) -> (r: RouteResult)
        ensures
            route_view(r) == skill_route(name@, confidence),
    {
        RouteResult {
            skill_name: Some(name.to_string()),
            mcp_server: None,
            tool_name: None,
            confidence,
        }
    }

    pub fn mcp(server: &str, tool: &str, confidence: u32) -> (r: RouteResult)
        ensures
            route_view(r) == mcp_route(server@, tool@, confidence),
    {
        RouteResult {
            skill_name: None,
            mcp_server: Some(server.to_string()),
            tool_name: Some(tool.to_string()),
            confidence,
        }
    }

    fn copy(&self) -> (r: RouteResult)
        ensures
            route_view(r) == route_view(*self),
    {
        RouteResult {
            skill_name: crate::agent::context::copy_opt_string(&self.skill_name),
            mcp_server: crate::agent::context::copy_opt_string(&self.mcp_server),
            tool_name: crate::agent::context::copy_opt_string(&self.tool_name),
            confidence: self.confidence,
        }
    }
}

fn push_route(v: &mut Vec<RouteResult>, r: RouteResult)
    ensures
        routes_view(final(v)@) == routes_view(old(v)@).push(route_view(r)),
{
    let ghost rv = route_view(r);
    v.push(r);
    assert(routes_view(v@) =~= routes_view(old(v)@).push(rv));
}

/// The MCP tools an intent type goes to.
pub open spec fn mcp_routes(t: IntentType) -> Seq<RouteModel> {
    match t {
        IntentType::Logs => seq![mcp_route("victoriametrics"@, "victorialogs_query"@, 80)],
        IntentType::Metrics => seq![mcp_route("victoriametrics"@, "victoriametrics_query"@, 80)],
        IntentType::Health => seq![mcp_route("victoriametrics"@, "victoriametrics_health"@, 70)],
        _ => Seq::empty(),
    }
}

/// Routes an intent type to MCP tools.
pub fn route_to_mcp(t: IntentType) -> (r: Vec<RouteResult>)
    ensures
        routes_view(r@) == mcp_routes(t),
{
    let mut v: Vec<RouteResult> = Vec::new();
    match t {
        IntentType::Logs => push_route(
            &mut v,
            RouteResult::mcp("victoriametrics", "victorialogs_query", 80),
        ),
        IntentType::Metrics => push_route(
            &mut v,
            RouteResult::mcp("victoriametrics", "victoriametrics_query", 80),
        ),
        IntentType::Health => push_route(
            &mut v,
            RouteResult::mcp("victoriametrics", "victoriametrics_health", 70),
        ),
        _ => {},
    }
    assert(routes_view(v@) =~= mcp_routes(t));
    v
}

/// Hundredths added for the tags: 15 for each tag equal to the intent name, 5 for each tag
/// found in the query (all lower-cased).
pub open spec fn tag_bonus(tags: Seq<String>, name: Seq<char>, query: Seq<char>) -> nat
    decreases tags.len(),
{
    if tags.len() == 0 {
        0
    } else {
        let t = lowercase(tags.last()@);
        tag_bonus(tags.drop_last(), name, query) + (if t == name {
            15nat
        } else {
            0nat
        }) + (if contains(query, t) {
            5nat
        } else {
            0nat
        })
    }
}

/// Hundredths added for the domain tags: 20 for each found in the query.
pub open spec fn domain_bonus(tags: Seq<String>, query: Seq<char>) -> nat
    decreases tags.len(),
{
    if tags.len() == 0 {
        0
    } else {
        domain_bonus(tags.drop_last(), query) + (if contains(query, lowercase(tags.last()@)) {
            20nat
        } else {
            0nat
        })
    }
}

/// How well a skill fits an intent, in hundredths: 40, plus 15 when its name holds the intent
/// name, 10 when its description does, plus the tag bonuses, at most 100.
pub open spec fn skill_confidence(skill: SkillMetadata, t: IntentType, raw_query: Seq<char>) -> nat {
    let name = lowercase(intent_name(t));
    let query = lowercase(raw_query);
    let total = 40 + (if contains(lowercase(skill.name@), name) {
        15nat
    } else {
        0nat
    }) + (if contains(lowercase(skill.description@), name) {
        10nat
    } else {
        0nat
    }) + tag_bonus(skill.tags@, name, query) + domain_bonus(skill.domain_tags@, query);
    if total > 100 {
        100
    } else {
        total
    }
}

proof fn lemma_tag_bonus_bound(tags: Seq<String>, name: Seq<char>, query: Seq<char>)
    ensures
        tag_bonus(tags, name, query) <= 20 * tags.len(),
    decreases tags.len(),
{
    if tags.len() > 0 {
        lemma_tag_bonus_bound(tags.drop_last(), name, query);
    }
}

proof fn lemma_domain_bonus_bound(tags: Seq<String>, query: Seq<char>)
    ensures
        domain_bonus(tags, query) <= 20 * tags.len(),
    decreases tags.len(),
{
    if tags.len() > 0 {
        lemma_domain_bonus_bound(tags.drop_last(), query);
    }
}

/// Scores a skill against an intent.
pub fn calculate_skill_confidence(skill: &SkillMetadata, t: IntentType, raw_query: &str) -> (c:
    u32)
    ensures
        c == skill_confidence(*skill, t, raw_query@),
{
    let name = to_lowercase(intent_type_name(&t));
    let skill_name = to_lowercase(skill.name.as_str());
    let skill_desc = to_lowercase(skill.description.as_str());
    let query = to_lowercase(raw_query);
    let mut total: u128 = 40;
    if str_contains(skill_name.as_str(), name.as_str()) {
        total = total + 15;
    }
    if str_contains(skill_desc.as_str(), name.as_str()) {
        total = total + 10;
    }
    let ghost base = total;
    let mut i: usize = 0;
    while i < skill.tags.len()
        invariant
            i <= skill.tags@.len(),
            base <= 65,
            total == base + tag_bonus(skill.tags@.take(i as int), name@, query@),
            total <= base + 20 * i,
        decreases skill.tags.len() - i,
    {
        assert(skill.tags@.take(i + 1).drop_last() =~= skill.tags@.take(i as int));
        let tag = to_lowercase(skill.tags[i].as_str());
        if str_eq(tag.as_str(), name.as_str()) {
            total = total + 15;
        }
        if str_contains(query.as_str(), tag.as_str()) {
            total = total + 5;
        }
        i = i + 1;
    }
    assert(skill.tags@.take(i as int) =~= skill.tags@);
    let ghost mid = total;
    let mut j: usize = 0;
    while j < skill.domain_tags.len()
        invariant
            j <= skill.domain_tags@.len(),
            i == skill.tags@.len(),
            mid <= 65 + 20 * i,
            total == mid + domain_bonus(skill.domain_tags@.take(j as int), query@),
            total <= mid + 20 * j,
        decreases skill.domain_tags.len() - j,
    {
        assert(skill.domain_tags@.take(j + 1).drop_last() =~= skill.domain_tags@.take(j as int));
        let tag = to_lowercase(skill.domain_tags[j].as_str());
        if str_contains(query.as_str(), tag.as_str()) {
            total = total + 20;
        }
        j = j + 1;
    }
    assert(skill.domain_tags@.take(j as int) =~= skill.domain_tags@);
    if total > 100 {
        100
    } else {
        total as u32
    }
}

} // verus!

verus! {

/// `tag` is one of `tags`.
pub open spec fn tag_in(tags: Seq<String>, tag: Seq<char>) -> bool {
    exists|i: int| 0 <= i < tags.len() && #[trigger] tags[i]@ == tag
}

/// The routes for the skills found under one domain tag: 90 when the skill lists the tag among
/// its own domain tags, 75 otherwise.
pub open spec fn domain_skill_routes(tag: Seq<char>, skills: Seq<SkillMetadata>) -> Seq<RouteModel> {
    Seq::new(
        skills.len(),
        |i: int|
            skill_route(
                skills[i].name@,
                if tag_in(skills[i].domain_tags@, tag) {
                    90
                } else {
                    75
                },
            ),
    )
}

/// The routes for each domain tag with the skills found under it, in order.
pub open spec fn domain_routes(found: Seq<(String, Vec<SkillMetadata>)>) -> Seq<RouteModel>
    decreases found.len(),
{
    if found.len() == 0 {
        Seq::empty()
    } else {
        domain_routes(found.drop_last()) + domain_skill_routes(
            found.last().0@,
            found.last().1@,
        )
    }
}

fn has_tag(tags: &Vec<String>, tag: &str) -> (b: bool)
    ensures
        b == tag_in(tags@, tag@),
{
    let mut i: usize = 0;
    while i < tags.len()
        invariant
            i <= tags@.len(),
            forall|j: int| 0 <= j < i ==> #[trigger] tags@[j]@ != tag@,
        decreases tags.len() - i,
    {
        if str_eq(tags[i].as_str(), tag) {
            return true;
        }
        i = i + 1;
    }
    false
}

/// Routes by domain tag: `found` holds each domain tag of the intent with the skills the
/// registry lists under it.
pub fn route_by_domain(found: &Vec<(String, Vec<SkillMetadata>)>) -> (r: Vec<RouteResult>)
    ensures
        routes_view(r@) == domain_routes(found@),
{
    let mut v: Vec<RouteResult> = Vec::new();
    let mut i: usize = 0;
    while i < found.len()
        invariant
            i <= found@.len(),
            routes_view(v@) == domain_routes(found@.take(i as int)),
        decreases found.len() - i,
    {
        assert(found@.take(i + 1).drop_last() =~= found@.take(i as int));
        let tag = found[i].0.as_str();
        let skills = &found[i].1;
        let ghost pre = routes_view(v@);
        let mut j: usize = 0;
        while j < skills.len()
            invariant
                j <= skills@.len(),
                skills@ == found@[i as int].1@,
                tag@ == found@[i as int].0@,
                routes_view(v@) == pre + domain_skill_routes(tag@, skills@.take(j as int)),
            decreases skills.len() - j,
        {
            let s = &skills[j];
            let c: u32 = if has_tag(&s.domain_tags, tag) {
                90
            } else {
                75
            };
            push_route(&mut v, RouteResult::skill(s.name.as_str(), c));
            assert(routes_view(v@) =~= pre + domain_skill_routes(tag@, skills@.take(j + 1)));
            j = j + 1;
        }
        assert(skills@.take(j as int) =~= skills@);
        i = i + 1;
    }
    assert(found@.take(i as int) =~= found@);
    v
}

/// A route to the skill `name` is among `rs`.
pub open spec fn named(rs: Seq<RouteModel>, name: Seq<char>) -> bool {
    exists|i: int| 0 <= i < rs.len() && #[trigger] rs[i].skill == Some(name)
}

/// Adds a route of the given confidence for each skill not yet routed to, in order.
pub open spec fn add_absent(rs: Seq<RouteModel>, skills: Seq<SkillMetadata>, c: u32) -> Seq<
    RouteModel,
>
    decreases skills.len(),
{
    if skills.len() == 0 {
        rs
    } else {
        let prev = add_absent(rs, skills.drop_last(), c);
        if named(prev, skills.last().name@) {
            prev
        } else {
            prev.push(skill_route(skills.last().name@, c))
        }
    }
}

/// The searched skills scored against the intent, those above 30 kept.
pub open spec fn scored_routes(skills: Seq<SkillMetadata>, t: IntentType, raw_query: Seq<char>) -> Seq<
    RouteModel,
>
    decreases skills.len(),
{
    if skills.len() == 0 {
        Seq::empty()
    } else {
        let s = skills.last();
        scored_routes(skills.drop_last(), t, raw_query) + if skill_confidence(s, t, raw_query) > 30 {
            seq![skill_route(s.name@, skill_confidence(s, t, raw_query) as u32)]
        } else {
            Seq::empty()
        }
    }
}

/// Drops each skill route whose confidence does not exceed that of the last kept route to the
/// same skill; other routes stay.
pub open spec fn dedup_state(rs: Seq<RouteModel>) -> (Map<Seq<char>, u32>, Seq<RouteModel>)
    decreases rs.len(),
{
    if rs.len() == 0 {
        (Map::empty(), Seq::empty())
    } else {
        let (seen, out) = dedup_state(rs.drop_last());
        let r = rs.last();
        match r.skill {
            Some(n) => {
                let prev: u32 = if seen.contains_key(n) {
                    seen[n]
                } else {
                    0
                };
                if r.confidence > prev {
                    (seen.insert(n, r.confidence), out.push(r))
                } else {
                    (seen, out)
                }
            },
            None => (seen, out.push(r)),
        }
    }
}

pub open spec fn dedup_routes(rs: Seq<RouteModel>) -> Seq<RouteModel> {
    dedup_state(rs).1
}

/// The tag that routes an intent type; empty for an unknown intent.
pub open spec fn intent_tag(t: IntentType) -> Seq<char> {
    match t {
        IntentType::Logs => "logs"@,
        IntentType::Metrics => "metrics"@,
        IntentType::Health => "health"@,
        IntentType::Debug => "debug"@,
        IntentType::Query => "query"@,
        IntentType::Scale => "scale"@,
        IntentType::Deploy => "deploy"@,
        IntentType::Unknown => ""@,
    }
}

/// The skill routes of an intent from what the registry returned: domain routes first, then the
/// searched skills scored, then the skills tagged with the intent (60) and the always-on skills
/// (40) not yet routed to, and finally the duplicates dropped.
pub open spec fn skill_routes(
    domain: Seq<RouteModel>,
    searched: Seq<SkillMetadata>,
    tagged: Seq<SkillMetadata>,
    always: Seq<SkillMetadata>,
    t: IntentType,
    raw_query: Seq<char>,
) -> Seq<RouteModel> {
    let a = domain + scored_routes(searched, t, raw_query);
    let b = if t == IntentType::Unknown {
        a
    } else {
        add_absent(a, tagged, 60)
    };
    dedup_routes(add_absent(b, always, 40))
}

fn intent_tag_str(t: IntentType) -> (s: &'static str)
    ensures
        s@ == intent_tag(t),
{
    match t {
        IntentType::Logs => "logs",
        IntentType::Metrics => "metrics",
        IntentType::Health => "health",
        IntentType::Debug => "debug",
        IntentType::Query => "query",
        IntentType::Scale => "scale",
        IntentType::Deploy => "deploy",
        IntentType::Unknown => "",
    }
}

fn routes_to(v: &Vec<RouteResult>, name: &str) -> (b: bool)
    ensures
        b == named(routes_view(v@), name@),
{
    let mut i: usize = 0;
    while i < v.len()
        invariant
            i <= v@.len(),
            forall|j: int| 0 <= j < i ==> (#[trigger] routes_view(v@)[j]).skill != Some(name@),
        decreases v.len() - i,
    {
        let hit = match &v[i].skill_name {
            Some(n) => str_eq(n.as_str(), name),
            None => false,
        };
        if hit {
            assert(routes_view(v@)[i as int].skill == Some(name@));
            return true;
        }
        i = i + 1;
    }
    false
}

fn push_absent(v: &mut Vec<RouteResult>, skills: &Vec<SkillMetadata>, c: u32)
    ensures
        routes_view(final(v)@) == add_absent(routes_view(old(v)@), skills@, c),
{
    let ghost start = routes_view(v@);
    let mut i: usize = 0;
    while i < skills.len()
        invariant
            i <= skills@.len(),
            routes_view(v@) == add_absent(start, skills@.take(i as int), c),
        decreases skills.len() - i,
    {
        assert(skills@.take(i + 1).drop_last() =~= skills@.take(i as int));
        let name = skills[i].name.as_str();
        if !routes_to(v, name) {
            push_route(v, RouteResult::skill(name, c));
        }
        i = i + 1;
    }
    assert(skills@.take(i as int) =~= skills@);
}

fn dedup(rs: &Vec<RouteResult>) -> (r: Vec<RouteResult>)
    ensures
        routes_view(r@) == dedup_routes(routes_view(rs@)),
{
    let mut out: Vec<RouteResult> = Vec::new();
    let mut seen: Vec<(String, u32)> = Vec::new();
    let mut i: usize = 0;
    while i < rs.len()
        invariant
            i <= rs@.len(),
            keys_unique(seen@),
            routes_view(out@) == dedup_state(routes_view(rs@).take(i as int)).1,
            forall|k: Seq<char>| #[trigger]
                lookup(seen@, k) == (if dedup_state(routes_view(rs@).take(i as int)).0.contains_key(
                    k,
                ) {
                    Some(dedup_state(routes_view(rs@).take(i as int)).0[k])
                } else {
                    None
                }),
        decreases rs.len() - i,
    {
        let ghost prefix = routes_view(rs@).take(i as int);
        assert(routes_view(rs@).take(i + 1).drop_last() =~= prefix);
        let ghost m = dedup_state(prefix).0;
        let r = &rs[i];
        match &r.skill_name {
            Some(n) => {
                let ghost n_view = n@;
                let prev: u32 = match find_key(&seen, n.as_str()) {
                    Some(j) => {
                        proof {
                            lemma_lookup_at(seen@, j as int);
                        }
                        seen[j].1
                    },
                    None => 0,
                };
                if r.confidence > prev {
                    let ghost s0 = seen@;
                    match find_key(&seen, n.as_str()) {
                        Some(j) => {
                            let (key, _old) = seen.remove(j);
                            seen.insert(j, (key, r.confidence));
                            proof {
                                assert(seen@ =~= s0.update(j as int, (s0[j as int].0, r.confidence)));
                                lemma_lookup_update(s0, j as int, r.confidence);
                            }
                        },
                        None => {
                            let key = n.clone();
                            proof {
                                if lookup(s0, n_view) is Some {
                                    assert(has_key(s0, n_view));
                                }
                            }
                            let ghost e = (key, r.confidence);
                            seen.push((key, r.confidence));
                            proof {
                                lemma_lookup_push(s0, e);
                            }
                        },
                    }
                    push_route(&mut out, r.copy());
                    proof {
                        let m2 = m.insert(n_view, r.confidence);
                        assert forall|k: Seq<char>| #[trigger]
                            lookup(seen@, k) == (if m2.contains_key(k) {
                                Some(m2[k])
                            } else {
                                None
                            }) by {
                            if k != n_view {
                                assert(lookup(seen@, k) == lookup(s0, k));
                            }
                        }
                    }
                }
            },
            None => {
                push_route(&mut out, r.copy());
            },
        }
        i = i + 1;
    }
    assert(routes_view(rs@).take(i as int) =~= routes_view(rs@));
    out
}

/// Routes to skills from what the registry returned.
pub fn rank_skill_routes(
    domain: &Vec<RouteResult>,
    searched: &Vec<SkillMetadata>,
    tagged: &Vec<SkillMetadata>,
    always: &Vec<SkillMetadata>,
    t: IntentType,
    raw_query: &str,
) -> (r: Vec<RouteResult>)
    ensures
        routes_view(r@) == skill_routes(
            routes_view(domain@),
            searched@,
            tagged@,
            always@,
            t,
            raw_query@,
        ),
{
    let mut v: Vec<RouteResult> = Vec::new();
    let mut i: usize = 0;
    while i < domain.len()
        invariant
            i <= domain@.len(),
            routes_view(v@) == routes_view(domain@).take(i as int),
        decreases domain.len() - i,
    {
        push_route(&mut v, domain[i].copy());
        assert(routes_view(v@) =~= routes_view(domain@).take(i + 1));
        i = i + 1;
    }
    assert(routes_view(domain@).take(i as int) =~= routes_view(domain@));
    let ghost d = routes_view(v@);
    let mut j: usize = 0;
    while j < searched.len()
        invariant
            j <= searched@.len(),
            routes_view(v@) == d + scored_routes(searched@.take(j as int), t, raw_query@),
        decreases searched.len() - j,
    {
        assert(searched@.take(j + 1).drop_last() =~= searched@.take(j as int));
        let s = &searched[j];
        let c = calculate_skill_confidence(s, t, raw_query);
        if c > 30 {
            push_route(&mut v, RouteResult::skill(s.name.as_str(), c));
        }
        assert(routes_view(v@) =~= d + scored_routes(searched@.take(j + 1), t, raw_query@));
        j = j + 1;
    }
    assert(searched@.take(j as int) =~= searched@);
    let tag = intent_tag_str(t);
    if char_count(tag) != 0 {
        proof {
            reveal_strlit("");
        }
        push_absent(&mut v, tagged, 60);
    } else {
        assert(t == IntentType::Unknown) by {
            if t != IntentType::Unknown {
                reveal_strlit("logs");
                reveal_strlit("metrics");
                reveal_strlit("health");
                reveal_strlit("debug");
                reveal_strlit("query");
                reveal_strlit("scale");
                reveal_strlit("deploy");
            }
        }
    }
    push_absent(&mut v, always, 40);
    dedup(&v)
}

} // verus!

verus! {

/// Inserts a route after every route of at least its confidence.
pub open spec fn insert_desc(sorted: Seq<RouteModel>, x: RouteModel) -> Seq<RouteModel>
    decreases sorted.len(),
{
    if sorted.len() == 0 {
        seq![x]
    } else if sorted.last().confidence >= x.confidence {
        sorted.push(x)
    } else {
        insert_desc(sorted.drop_last(), x).push(sorted.last())
    }
}

/// The routes by decreasing confidence, routes of equal confidence in their first order.
pub open spec fn sort_desc(rs: Seq<RouteModel>) -> Seq<RouteModel>
    decreases rs.len(),
{
    if rs.len() == 0 {
        Seq::empty()
    } else {
        insert_desc(sort_desc(rs.drop_last()), rs.last())
    }
}

/// The three most confident routes.
pub open spec fn top_routes(rs: Seq<RouteModel>) -> Seq<RouteModel> {
    let s = sort_desc(rs);
    if s.len() > 3 {
        s.take(3)
    } else {
        s
    }
}

proof fn lemma_insert_desc_at(s: Seq<RouteModel>, x: RouteModel, p: int)
    requires
        0 <= p <= s.len(),
        forall|j: int| p <= j < s.len() ==> (#[trigger] s[j]).confidence < x.confidence,
        p == 0 || s[p - 1].confidence >= x.confidence,
    ensures
        insert_desc(s, x) == s.insert(p, x),
    decreases s.len(),
{
    if s.len() == 0 {
        assert(s.insert(p, x) =~= seq![x]);
    } else if s.last().confidence >= x.confidence {
        assert(p == s.len());
        assert(s.insert(p, x) =~= s.push(x));
    } else {
        let t = s.drop_last();
        lemma_insert_desc_at(t, x, p);
        assert(s.insert(p, x) =~= t.insert(p, x).push(s.last()));
    }
}

/// Orders routes by decreasing confidence (a stable sort) and keeps the first three.
pub fn rank_routes(rs: &Vec<RouteResult>) -> (r: Vec<RouteResult>)
    ensures
        routes_view(r@) == top_routes(routes_view(rs@)),
{
    let mut out: Vec<RouteResult> = Vec::new();
    let mut i: usize = 0;
    while i < rs.len()
        invariant
            i <= rs@.len(),
            routes_view(out@) == sort_desc(routes_view(rs@).take(i as int)),
        decreases rs.len() - i,
    {
        assert(routes_view(rs@).take(i + 1).drop_last() =~= routes_view(rs@).take(i as int));
        let x = rs[i].copy();
        let mut p: usize = out.len();
        while p > 0 && out[p - 1].confidence < x.confidence
            invariant
                p <= out@.len(),
                forall|j: int|
                    p <= j < out@.len() ==> (#[trigger] routes_view(out@)[j]).confidence
                        < x.confidence,
            decreases p,
        {
            p = p - 1;
        }
        proof {
            lemma_insert_desc_at(routes_view(out@), route_view(x), p as int);
        }
        let ghost before = routes_view(out@);
        let ghost xv = route_view(x);
        out.insert(p, x);
        assert(routes_view(out@) =~= before.insert(p as int, xv));
        i = i + 1;
    }
    assert(routes_view(rs@).take(i as int) =~= routes_view(rs@));
    if out.len() > 3 {
        out.truncate(3);
        assert(routes_view(out@) =~= sort_desc(routes_view(rs@)).take(3));
    }
    out
}

/// Where skills are looked up. Implemented by the skill registry of the application.
///
/// Each lookup comes with a spec function that says which skills the registry may answer it
/// with (by default any); a registry verified with the library states its answers exactly
/// there, and the router's contract speaks of the registry's answers through them.
pub trait SkillRegistryAccess {
    /// The skills a search for `query` may find.
    open spec fn gives_search(&self, query: Seq<char>, skills: Seq<SkillMetadata>) -> bool {
        true
    }

    fn search(&self, query: &str) -> (r: Vec<SkillMetadata>)
        ensures
            self.gives_search(query@, r@),
    ;

    /// The skills carrying a tag.
    open spec fn gives_tagged(&self, tag: Seq<char>, skills: Seq<SkillMetadata>) -> bool {
        true
    }

    fn get_by_tag(&self, tag: &str) -> (r: Vec<SkillMetadata>)
        ensures
            self.gives_tagged(tag@, r@),
    ;

    /// The skills of a domain tag.
    open spec fn gives_domain(&self, domain_tag: Seq<char>, skills: Seq<SkillMetadata>) -> bool {
        true
    }

    fn get_by_domain_tag(&self, domain_tag: &str) -> (r: Vec<SkillMetadata>)
        ensures
            self.gives_domain(domain_tag@, r@),
    ;

    /// The skills offered for every intent.
    open spec fn gives_always(&self, skills: Seq<SkillMetadata>) -> bool {
        true
    }

    fn get_always(&self) -> (r: Vec<SkillMetadata>)
        ensures
            self.gives_always(r@),
    ;
}

/// A registry with no skills.
pub struct DefaultSkillRegistryAccess;

impl SkillRegistryAccess for DefaultSkillRegistryAccess {
    open spec fn gives_search(&self, query: Seq<char>, skills: Seq<SkillMetadata>) -> bool {
        skills.len() == 0
    }

    fn search(&self, _query: &str) -> (r: Vec<SkillMetadata>)
        ensures
            r@ == Seq::<SkillMetadata>::empty(),
    {
        Vec::new()
    }

    open spec fn gives_tagged(&self, tag: Seq<char>, skills: Seq<SkillMetadata>) -> bool {
        skills.len() == 0
    }

    fn get_by_tag(&self, _tag: &str) -> (r: Vec<SkillMetadata>)
        ensures
            r@ == Seq::<SkillMetadata>::empty(),
    {
        Vec::new()
    }

    open spec fn gives_domain(&self, domain_tag: Seq<char>, skills: Seq<SkillMetadata>) -> bool {
        skills.len() == 0
    }

    fn get_by_domain_tag(&self, _domain_tag: &str) -> (r: Vec<SkillMetadata>)
        ensures
            r@ == Seq::<SkillMetadata>::empty(),
    {
        Vec::new()
    }

    open spec fn gives_always(&self, skills: Seq<SkillMetadata>) -> bool {
        skills.len() == 0
    }

    fn get_always(&self) -> (r: Vec<SkillMetadata>)
        ensures
            r@ == Seq::<SkillMetadata>::empty(),
    {
        Vec::new()
    }
}

/// The query a router searches the registry with: the intent's name, a space, the message.
pub open spec fn search_query(t: IntentType, raw_query: Seq<char>) -> Seq<char> {
    intent_name(t) + " "@ + raw_query
}

/// The registry's answers to the domain-tag lookups: one per tag, in order, each the skills the
/// registry may give for that tag.
pub open spec fn domain_answers<R: SkillRegistryAccess>(
    registry: R,
    tags: Seq<Seq<char>>,
    found: Seq<(String, Vec<SkillMetadata>)>,
) -> bool {
    &&& found.len() == tags.len()
    &&& forall|i: int|
        #![trigger found[i]]
        0 <= i < found.len() ==> found[i].0@ == tags[i] && registry.gives_domain(tags[i], found[i].1@)
}

proof fn lemma_no_domain_routes(found: Seq<(String, Vec<SkillMetadata>)>)
    requires
        forall|i: int| 0 <= i < found.len() ==> (#[trigger] found[i]).1@.len() == 0,
    ensures
        domain_routes(found) == Seq::<RouteModel>::empty(),
    decreases found.len(),
{
    if found.len() > 0 {
        assert forall|i: int| 0 <= i < found.drop_last().len() implies (#[trigger] found.drop_last()[i]).1@.len() == 0 by {
            assert(found.drop_last()[i] == found[i]);
        }
        lemma_no_domain_routes(found.drop_last());
        assert(found.last() == found[found.len() - 1]);
        assert(domain_skill_routes(found.last().0@, found.last().1@) =~= Seq::<RouteModel>::empty());
        assert(Seq::<RouteModel>::empty() + Seq::<RouteModel>::empty() =~= Seq::<RouteModel>::empty());
    }
}

/// A router whose registry knows no skill sends a question to the observability tool of its
/// kind and nowhere else: a metrics question to VictoriaMetrics' metrics query and a logs
/// question to its logs query (both at 80), a health question to its health check (at 70), any
/// other question nowhere. This holds for every message, entities and domain tags.
pub proof fn skill_less_routing_goes_to_the_observability_tool(
    t: IntentType,
    raw_query: Seq<char>,
    tags: Seq<Seq<char>>,
    found: Seq<(String, Vec<SkillMetadata>)>,
    searched: Seq<SkillMetadata>,
    tagged: Seq<SkillMetadata>,
    always: Seq<SkillMetadata>,
)
    requires
        domain_answers(DefaultSkillRegistryAccess, tags, found),
        DefaultSkillRegistryAccess.gives_search(search_query(t, raw_query), searched),
        intent_tag(t).len() != 0 ==> DefaultSkillRegistryAccess.gives_tagged(intent_tag(t), tagged),
        intent_tag(t).len() == 0 ==> tagged.len() == 0,
        DefaultSkillRegistryAccess.gives_always(always),
    ensures
        ({
            let routes = top_routes(
                skill_routes(domain_routes(found), searched, tagged, always, t, raw_query) + mcp_routes(t),
            );
            &&& t == IntentType::Metrics ==> routes == seq![
                RouteModel {
                    skill: None,
                    server: Some("victoriametrics"@),
                    tool: Some("victoriametrics_query"@),
                    confidence: 80,
                },
            ]
            &&& t == IntentType::Logs ==> routes == seq![
                RouteModel {
                    skill: None,
                    server: Some("victoriametrics"@),
                    tool: Some("victorialogs_query"@),
                    confidence: 80,
                },
            ]
            &&& t == IntentType::Health ==> routes == seq![
                RouteModel {
                    skill: None,
                    server: Some("victoriametrics"@),
                    tool: Some("victoriametrics_health"@),
                    confidence: 70,
                },
            ]
            &&& (t != IntentType::Metrics && t != IntentType::Logs && t != IntentType::Health)
                ==> routes.len() == 0
        }),
{
    assert forall|i: int| 0 <= i < found.len() implies (#[trigger] found[i]).1@.len() == 0 by {
        assert(DefaultSkillRegistryAccess.gives_domain(tags[i], found[i].1@));
    }
    lemma_no_domain_routes(found);
    assert(searched =~= Seq::<SkillMetadata>::empty());
    assert(tagged =~= Seq::<SkillMetadata>::empty());
    assert(always =~= Seq::<SkillMetadata>::empty());
    let e = Seq::<RouteModel>::empty();
    assert(scored_routes(searched, t, raw_query) == e);
    assert(e + e =~= e);
    assert(add_absent(e, tagged, 60) == e);
    assert(add_absent(e, always, 40) == e);
    assert(dedup_state(e).1 == e);
    assert(skill_routes(domain_routes(found), searched, tagged, always, t, raw_query) == e);
    let m = mcp_routes(t);
    assert(e + m =~= m);
    if m.len() == 1 {
        assert(m.drop_last() =~= e);
        assert(sort_desc(m) == insert_desc(sort_desc(e), m.last()));
        assert(sort_desc(m) =~= m);
    }
    assert(top_routes(m) =~= m);
}

/// Routes intents to skills and MCP tools.
pub struct Router<R: SkillRegistryAccess> {
    pub skill_registry: R,
}

impl<R: SkillRegistryAccess> Router<R> {
    pub fn new(skill_registry: R) -> (r: Self)
        ensures
            r.skill_registry == skill_registry,
    {
        Router { skill_registry }
    }

    /// Routes an intent: the skill routes built from what the registry returns, then the MCP
    /// routes, the three most confident kept.
    pub fn route(&self, t: IntentType, raw_query: &str, entities: &IntentEntities) -> (r: Vec<
        RouteResult,
    >)
        ensures
            r@.len() <= 3,
            forall|i: int, j: int|
                0 <= i < j < r@.len() ==> r@[i].confidence >= r@[j].confidence,
            exists|
                found: Seq<(String, Vec<SkillMetadata>)>,
                searched: Seq<SkillMetadata>,
                tagged: Seq<SkillMetadata>,
                always: Seq<SkillMetadata>,
            |
                {
                    &&& domain_answers(self.skill_registry, spec_domain_tags(*entities), found)
                    &&& self.skill_registry.gives_search(search_query(t, raw_query@), searched)
                    &&& (if intent_tag(t).len() != 0 {
                        self.skill_registry.gives_tagged(intent_tag(t), tagged)
                    } else {
                        tagged.len() == 0
                    })
                    &&& self.skill_registry.gives_always(always)
                    &&& routes_view(r@) == top_routes(
                        #[trigger] skill_routes(domain_routes(found), searched, tagged, always, t, raw_query@)
                            + mcp_routes(t),
                    )
                },
    {
        let tags = intent_domain_tags(entities);
        let mut found: Vec<(String, Vec<SkillMetadata>)> = Vec::new();
        let mut i: usize = 0;
        while i < tags.len()
            invariant
                i <= tags@.len(),
                tags_view(tags@) == spec_domain_tags(*entities),
                domain_answers(self.skill_registry, tags_view(tags@).take(i as int), found@),
            decreases tags.len() - i,
        {
            let skills = self.skill_registry.get_by_domain_tag(tags[i].as_str());
            let ghost before = found@;
            let tag = tags[i].clone();
            assert(tag@ == tags@[i as int]@);
            assert(self.skill_registry.gives_domain(tag@, skills@));
            found.push((tag, skills));
            proof {
                let tv = tags_view(tags@).take(i + 1);
                assert forall|k: int| #![trigger found@[k]] 0 <= k < found@.len() implies found@[k].0@ == tv[k]
                    && self.skill_registry.gives_domain(tv[k], found@[k].1@) by {
                    if k < i {
                        assert(found@[k] == before[k]);
                        assert(before[k] == before[k]);
                        assert(tv[k] == tags_view(tags@).take(i as int)[k]);
                        assert(self.skill_registry.gives_domain(
                            tags_view(tags@).take(i as int)[k],
                            before[k].1@,
                        ));
                    } else {
                        assert(tv[k] == tags@[i as int]@);
                    }
                }
                assert(tv.len() == found@.len());
                assert(domain_answers(self.skill_registry, tv, found@));
            }
            i = i + 1;
        }
        assert(tags_view(tags@).take(tags@.len() as int) =~= tags_view(tags@));
        let domain = route_by_domain(&found);
        let mut query = String::new();
        crate::text::push_str(&mut query, intent_type_name(&t));
        crate::text::push_str(&mut query, " ");
        crate::text::push_str(&mut query, raw_query);
        let searched = self.skill_registry.search(query.as_str());
        let tag = intent_tag_str(t);
        let tagged = if char_count(tag) != 0 {
            self.skill_registry.get_by_tag(tag)
        } else {
            Vec::new()
        };
        let always = self.skill_registry.get_always();
        let mut all = rank_skill_routes(&domain, &searched, &tagged, &always, t, raw_query);
        let ghost skills = routes_view(all@);
        let mcp = route_to_mcp(t);
        let mut k: usize = 0;
        while k < mcp.len()
            invariant
                k <= mcp@.len(),
                routes_view(all@) == skills + routes_view(mcp@).take(k as int),
            decreases mcp.len() - k,
        {
            let x = mcp[k].copy();
            let ghost before = all@;
            all.push(x);
            proof {
                assert(all@ == before.push(x));
                let target = skills + routes_view(mcp@).take(k + 1);
                assert(routes_view(mcp@).len() == mcp@.len());
                assert(routes_view(mcp@).take(k as int).len() == k);
                assert(routes_view(before).len() == before.len());
                assert(before.len() == skills.len() + k);
                assert(routes_view(all@).len() == all@.len());
                assert(routes_view(all@).len() == target.len());
                assert forall|j: int| 0 <= j < target.len() implies #[trigger] routes_view(all@)[j]
                    == target[j] by {
                    if j < before.len() {
                        assert(all@[j] == before[j]);
                        assert(routes_view(before)[j] == route_view(before[j]));
                    } else {
                        assert(all@[j] == x);
                        assert(route_view(x) == route_view(mcp@[k as int]));
                    }
                }
                assert(routes_view(all@) =~= target);
            }
            k = k + 1;
        }
        proof {
            assert(routes_view(mcp@).take(mcp@.len() as int) =~= routes_view(mcp@));
        }
        let r = rank_routes(&all);
        proof {
            ranked_routes_are_top_three(routes_view(all@));
        }
        assert forall|i: int, j: int| 0 <= i < j < r@.len() implies r@[i].confidence
            >= r@[j].confidence by {
            assert(routes_view(r@)[i].confidence == r@[i].confidence);
            assert(routes_view(r@)[j].confidence == r@[j].confidence);
        }
        proof {
            assert(query@ == search_query(t, raw_query@));
            assert(domain_answers(self.skill_registry, spec_domain_tags(*entities), found@));
            assert(routes_view(r@) == top_routes(
                skill_routes(domain_routes(found@), searched@, tagged@, always@, t, raw_query@)
                    + mcp_routes(t),
            ));
        }
        r
    }
}

/// Routes come out ordered by decreasing confidence.
proof fn lemma_insert_desc_sorted(s: Seq<RouteModel>, x: RouteModel)
    requires
        forall|i: int, j: int| 0 <= i < j < s.len() ==> s[i].confidence >= s[j].confidence,
    ensures
        forall|i: int, j: int|
            0 <= i < j < insert_desc(s, x).len() ==> insert_desc(s, x)[i].confidence >= insert_desc(
                s,
                x,
            )[j].confidence,
        insert_desc(s, x).len() == s.len() + 1,
    decreases s.len(),
{
    if s.len() > 0 && s.last().confidence < x.confidence {
        lemma_insert_desc_sorted(s.drop_last(), x);
        let t = insert_desc(s.drop_last(), x);
        assert forall|i: int| 0 <= i < t.len() implies t[i].confidence >= s.last().confidence by {
            lemma_insert_desc_members(s.drop_last(), x, i);
        }
    }
}

proof fn lemma_insert_desc_members(s: Seq<RouteModel>, x: RouteModel, i: int)
    requires
        0 <= i < insert_desc(s, x).len(),
        insert_desc(s, x).len() == s.len() + 1,
    ensures
        insert_desc(s, x)[i] == x || exists|j: int| 0 <= j < s.len() && insert_desc(s, x)[i] == s[j],
    decreases s.len(),
{
    if s.len() > 0 && s.last().confidence < x.confidence {
        let t = insert_desc(s.drop_last(), x);
        lemma_insert_desc_len(s.drop_last(), x);
        if i < t.len() {
            lemma_insert_desc_members(s.drop_last(), x, i);
            if insert_desc(s, x)[i] != x {
                let j = choose|j: int| 0 <= j < s.drop_last().len() && t[i] == s.drop_last()[j];
                assert(s[j] == s.drop_last()[j]);
            }
        } else {
            assert(insert_desc(s, x)[i] == s[s.len() - 1]);
        }
    } else if s.len() > 0 {
        if i < s.len() {
            assert(insert_desc(s, x)[i] == s[i]);
        }
    }
}

proof fn lemma_insert_desc_len(s: Seq<RouteModel>, x: RouteModel)
    ensures
        insert_desc(s, x).len() == s.len() + 1,
    decreases s.len(),
{
    if s.len() > 0 && s.last().confidence < x.confidence {
        lemma_insert_desc_len(s.drop_last(), x);
    }
}

/// Ranking keeps the three most confident candidates: the ranked routes come by decreasing
/// confidence, each of them is one of the candidates, and there are three of them, or all the
/// candidates when there are fewer.
pub proof fn ranked_routes_are_top_three(rs: Seq<RouteModel>)
    ensures
        forall|i: int, j: int|
            0 <= i < j < top_routes(rs).len() ==> top_routes(rs)[i].confidence >= top_routes(
                rs,
            )[j].confidence,
        top_routes(rs).len() == (if rs.len() < 3 {
            rs.len()
        } else {
            3
        }),
        forall|i: int| 0 <= i < top_routes(rs).len() ==> rs.contains(#[trigger] top_routes(rs)[i]),
{
    lemma_sort_desc_sorted(rs);
    lemma_sort_desc_members(rs);
}

proof fn lemma_sort_desc_members(rs: Seq<RouteModel>)
    ensures
        sort_desc(rs).len() == rs.len(),
        forall|i: int| 0 <= i < sort_desc(rs).len() ==> rs.contains(#[trigger] sort_desc(rs)[i]),
    decreases rs.len(),
{
    if rs.len() > 0 {
        let p = rs.drop_last();
        lemma_sort_desc_members(p);
        lemma_insert_desc_len(sort_desc(p), rs.last());
        assert forall|i: int| 0 <= i < sort_desc(rs).len() implies rs.contains(
            #[trigger] sort_desc(rs)[i],
        ) by {
            lemma_insert_desc_members(sort_desc(p), rs.last(), i);
            if sort_desc(rs)[i] == rs.last() {
                assert(rs[rs.len() - 1] == rs.last());
            } else {
                let j = choose|j: int|
                    0 <= j < sort_desc(p).len() && sort_desc(rs)[i] == sort_desc(p)[j];
                assert(p.contains(sort_desc(p)[j]));
                let k = choose|k: int| 0 <= k < p.len() && p[k] == sort_desc(p)[j];
                assert(rs[k] == p[k]);
            }
        }
    }
}

proof fn lemma_sort_desc_sorted(rs: Seq<RouteModel>)
    ensures
        forall|i: int, j: int|
            0 <= i < j < sort_desc(rs).len() ==> sort_desc(rs)[i].confidence >= sort_desc(
                rs,
            )[j].confidence,
    decreases rs.len(),
{
    if rs.len() > 0 {
        lemma_sort_desc_sorted(rs.drop_last());
        lemma_insert_desc_sorted(sort_desc(rs.drop_last()), rs.last());
    }
}

} // verus!
