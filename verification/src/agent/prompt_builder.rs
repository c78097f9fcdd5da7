//! Dynamic prompt builder: assembles system prompts from skills, tools and context, so that the
//! model chooses the investigation approach from the available capabilities.

use crate::text::{
    extend_str, from_chars, lemma_utf8_len_ge_len, prefix_chars, take_chars_str, to_chars,
    utf8_len,
};
use crate::types::skill::{SkillMetadata, SkillTool, ToolKind};
use vstd::prelude::*;

verus! {

pub const MAX_SKILL_CONTENT_CHARS: usize = 2_000;

pub const MAX_TOTAL_SKILL_CHARS: usize = 12_000;

pub const DEFAULT_IDENTITY: &'static str = "You are AIClaw, an AI operations assistant specializing in Kubernetes diagnostics, infrastructure troubleshooting, and AIOps.";

pub const DEFAULT_CAPABILITIES: &'static str = "You can execute shell commands, query metrics and logs, inspect cluster resources, and provide root cause analysis with actionable remediation steps.";

pub const PLANNER_ROLE: &'static str = "You are a diagnostic planning expert. Your job is to analyze the user's problem and create an efficient investigation plan using available skills and tools.

Planning principles:
1. Start with broad status checks, then narrow to specific resources
2. Relevance: choose queries most likely to reveal the root cause
3. Efficiency: minimize the number of queries needed
4. Evidence chain: each step should build on previous findings

You should determine the investigation approach based on the user's query and the available skills/tools listed below, NOT from a fixed template.";

pub const PLANNER_INSTRUCTIONS: &'static str = "

## Output Format

Return a JSON object:
```json
{
    \"reasoning\": \"Your analysis of the problem and investigation strategy\",
    \"steps\": [
        {
            \"description\": \"What this step investigates\",
            \"command\": \"kubectl get pod xxx -n yyy -o wide\",
            \"parameters\": [
                {\"name\": \"param_name\", \"value\": \"param_value_or_{{placeholder}}\"}
            ]
        }
    ]
}
```

Guidelines:
- 1-5 steps depending on problem complexity
- The `command` field must be the actual shell command to run (kubectl, helm, curl, etc.)
- Use {{pod_name}}, {{namespace}} etc. as placeholders for unknown values
- Prefer commands from the available skills when applicable
- Order steps from broad investigation to specific diagnosis
";

pub const SUMMARIZER_ROLE: &'static str = "You are an operations data analyst. You transform raw tool outputs (logs, metrics, kubectl output, API responses) into clear, actionable summaries.";

pub const SUMMARIZER_INSTRUCTIONS: &'static str = "

## Output Requirements

- Use Chinese (中文) for the response
- Structure with Markdown headers, tables, and bullet points
- Highlight anomalies, errors, and warnings prominently
- Provide specific, actionable next steps
- When data permits, include before/after comparisons or trends
- Do NOT follow a rigid template; adapt your analysis structure to the data
";

pub const REPL_ROLE: &'static str = "You help users analyze cluster issues, debug pods, inspect GPU scheduling (HAMi/vGPU), check logs, and provide actionable remediation steps.

You have access to tools for running shell commands and reading files. Use them proactively to gather diagnostic data.

When diagnosing issues:
- Be systematic: gather data before concluding
- Show your reasoning at each step
- Run multiple commands in parallel when possible
- Format output clearly with Markdown tables and code blocks
- Provide actionable remediation steps";

/// Skill content cut to `max_chars` characters with a truncation note.
pub open spec fn spec_truncate_skill_content(content: Seq<char>, max_chars: nat) -> Seq<char> {
    if content.len() <= max_chars {
        content
    } else {
        prefix_chars(content, max_chars) + "...\n(content truncated)"@
    }
}

/// Cuts skill content to `max_chars` characters.
pub fn truncate_skill_content(content: &str, max_chars: usize) -> (r: String)
    ensures
        r@ == spec_truncate_skill_content(content@, max_chars as nat),
{
    let n = content.unicode_len();
    if n <= max_chars {
        return content.to_string();
    }
    let mut v = to_chars(take_chars_str(content, max_chars).as_str());
    extend_str(&mut v, "...\n(content truncated)");
    from_chars(v.as_slice())
}

pub open spec fn spec_tool_kind(kind: ToolKind) -> Seq<char> {
    match kind {
        ToolKind::Shell => "shell"@,
        ToolKind::Http => "http"@,
        ToolKind::Script => "script"@,
    }
}

/// Lower-case name of a tool kind.
pub fn format_tool_kind(kind: &ToolKind) -> (r: &'static str)
    ensures
        r@ == spec_tool_kind(*kind),
{
    match kind {
        ToolKind::Shell => "shell",
        ToolKind::Http => "http",
        ToolKind::Script => "script",
    }
}

/// `- \`command\`: description` lines of a skill's tools.
pub open spec fn command_lines(tools: Seq<SkillTool>) -> Seq<char>
    decreases tools.len(),
{
    if tools.len() == 0 {
        Seq::empty()
    } else {
        command_lines(tools.drop_last()) + "- `"@ + tools.last().command@ + "`: "@
            + tools.last().description@ + "\n"@
    }
}

/// The part of a skill block shown for its content (possibly empty).
pub open spec fn content_part(skill: SkillMetadata) -> Seq<char> {
    if skill.raw_content@.len() == 0 {
        Seq::empty()
    } else {
        spec_truncate_skill_content(skill.raw_content@, MAX_SKILL_CONTENT_CHARS as nat) + "\n"@
    }
}

/// Bytes of content a skill block counts against the total.
pub open spec fn content_cost(skill: SkillMetadata) -> nat {
    if skill.raw_content@.len() == 0 {
        0
    } else {
        utf8_len(spec_truncate_skill_content(skill.raw_content@, MAX_SKILL_CONTENT_CHARS as nat))
    }
}

/// The block for one skill in the planner prompt.
pub open spec fn skill_block(skill: SkillMetadata) -> Seq<char> {
    "### "@ + skill.name@ + "\n"@ + (if skill.description@.len() == 0 {
        Seq::empty()
    } else {
        skill.description@ + "\n"@
    }) + content_part(skill) + (if skill.tools@.len() == 0 {
        Seq::empty()
    } else {
        "Available commands:\n"@ + command_lines(skill.tools@)
    }) + "\n"@
}

/// The knowledge section of the planner prompt, given the content bytes already spent.
pub open spec fn skills_section(skills: Seq<SkillMetadata>, spent: nat) -> Seq<char>
    decreases skills.len(),
{
    if skills.len() == 0 {
        Seq::empty()
    } else if spent >= MAX_TOTAL_SKILL_CHARS {
        "\n(Additional skills omitted due to context budget)\n"@
    } else {
        skill_block(skills[0]) + skills_section(skills.drop_first(), spent + content_cost(skills[0]))
    }
}

/// `- **name** (kind): description` lines of the available tools.
pub open spec fn tool_lines(tools: Seq<SkillTool>) -> Seq<char>
    decreases tools.len(),
{
    if tools.len() == 0 {
        Seq::empty()
    } else {
        tool_lines(tools.drop_last()) + "- **"@ + tools.last().name@ + "** ("@ + spec_tool_kind(
            tools.last().kind,
        ) + "): "@ + tools.last().description@ + "\n"@
    }
}

pub open spec fn deref_skills(skills: Seq<&SkillMetadata>) -> Seq<SkillMetadata> {
    Seq::new(skills.len(), |i: int| *skills[i])
}

pub open spec fn deref_tools(tools: Seq<&SkillTool>) -> Seq<SkillTool> {
    Seq::new(tools.len(), |i: int| *tools[i])
}

/// The planner's system prompt.
pub open spec fn spec_planner_prompt(
    identity: Seq<char>,
    skills: Seq<SkillMetadata>,
    tools: Seq<SkillTool>,
) -> Seq<char> {
    identity + "\n\n"@ + PLANNER_ROLE@ + (if skills.len() == 0 {
        Seq::empty()
    } else {
        "\n\n## Available Diagnostic Knowledge\n\n"@ + skills_section(skills, 0)
    }) + (if tools.len() == 0 {
        Seq::empty()
    } else {
        "\n## Available Tools\n\n"@ + tool_lines(tools)
    }) + PLANNER_INSTRUCTIONS@
}

/// Lines `- **name**: description` for skills with a description, until the line bytes spent
/// reach half of the total budget.
pub open spec fn domain_lines(skills: Seq<SkillMetadata>, spent: nat) -> Seq<char>
    decreases skills.len(),
{
    if skills.len() == 0 || spent >= MAX_TOTAL_SKILL_CHARS / 2 {
        Seq::empty()
    } else if skills[0].description@.len() == 0 {
        domain_lines(skills.drop_first(), spent)
    } else {
        let line = "- **"@ + skills[0].name@ + "**: "@ + skills[0].description@ + "\n"@;
        line + domain_lines(skills.drop_first(), spent + utf8_len(line))
    }
}

/// The summarizer's system prompt.
pub open spec fn spec_summarizer_prompt(identity: Seq<char>, skills: Seq<SkillMetadata>) -> Seq<
    char,
> {
    identity + "\n\n"@ + SUMMARIZER_ROLE@ + (if skills.len() == 0 {
        Seq::empty()
    } else {
        "\n\n## Domain Knowledge\n\n"@ + domain_lines(skills, 0)
    }) + SUMMARIZER_INSTRUCTIONS@
}

/// `- **name**: description` for every skill.
pub open spec fn loaded_skill_lines(skills: Seq<SkillMetadata>) -> Seq<char>
    decreases skills.len(),
{
    if skills.len() == 0 {
        Seq::empty()
    } else {
        loaded_skill_lines(skills.drop_last()) + "- **"@ + skills.last().name@ + "**: "@
            + skills.last().description@ + "\n"@
    }
}

/// The interactive session's system prompt.
pub open spec fn spec_repl_prompt(identity: Seq<char>, skills: Seq<SkillMetadata>) -> Seq<char> {
    identity + "\n\n"@ + REPL_ROLE@ + (if skills.len() == 0 {
        Seq::empty()
    } else {
        "\n\n## Loaded Skills\n\n"@ + "You have knowledge from these diagnostic skills:\n"@
            + loaded_skill_lines(skills)
    })
}

/// Assembles system prompts from the available skills and tools.
#[derive(Debug, Clone)]
pub struct PromptBuilder {
    pub identity: String,
    pub capabilities: String,
}

proof fn lemma_truncated_bound(content: Seq<char>)
    ensures
        utf8_len(spec_truncate_skill_content(content, MAX_SKILL_CONTENT_CHARS as nat)) <= 4 * 2100,
{
    reveal_strlit("...\n(content truncated)");
    let t = spec_truncate_skill_content(content, MAX_SKILL_CONTENT_CHARS as nat);
    assert(t.len() <= 2100);
    lemma_utf8_len_ge_len(t);
}

fn push_command_lines(out: &mut Vec<char>, tools: &Vec<SkillTool>)
    ensures
        final(out)@ == old(out)@ + command_lines(tools@),
{
    let ghost start = out@;
    let mut i: usize = 0;
    while i < tools.len()
        invariant
            i <= tools@.len(),
            out@ == start + command_lines(tools@.take(i as int)),
        decreases tools.len() - i,
    {
        let t = &tools[i];
        extend_str(out, "- `");
        extend_str(out, t.command.as_str());
        extend_str(out, "`: ");
        extend_str(out, t.description.as_str());
        extend_str(out, "\n");
        proof {
            assert(tools@.take(i + 1).drop_last() == tools@.take(i as int));
            assert(tools@.take(i + 1).last() == tools@[i as int]);
        }
        i = i + 1;
    }
    assert(tools@.take(tools@.len() as int) == tools@);
}

fn push_skill_block(out: &mut Vec<char>, skill: &SkillMetadata) -> (cost: usize)
    ensures
        final(out)@ == old(out)@ + skill_block(*skill),
        cost == content_cost(*skill),
        cost <= 4 * 2100,
{
    let ghost start = out@;
    extend_str(out, "### ");
    extend_str(out, skill.name.as_str());
    extend_str(out, "\n");
    let ghost a = out@;
    if skill.description.as_str().unicode_len() > 0 {
        extend_str(out, skill.description.as_str());
        extend_str(out, "\n");
    }
    let ghost b = out@;
    let mut cost: usize = 0;
    if skill.raw_content.as_str().unicode_len() > 0 {
        let content = truncate_skill_content(skill.raw_content.as_str(), MAX_SKILL_CONTENT_CHARS);
        proof {
            lemma_truncated_bound(skill.raw_content@);
        }
        extend_str(out, content.as_str());
        extend_str(out, "\n");
        cost = crate::text::byte_len(content.as_str());
    }
    let ghost c = out@;
    if tools_nonempty(&skill.tools) {
        extend_str(out, "Available commands:\n");
        push_command_lines(out, &skill.tools);
    }
    extend_str(out, "\n");
    proof {
        lemma_truncated_bound(skill.raw_content@);
    }
    cost
}

fn tools_nonempty(tools: &Vec<SkillTool>) -> (b: bool)
    ensures
        b == (tools@.len() > 0),
{
    tools.len() > 0
}

fn push_tool_lines(out: &mut Vec<char>, tools: &[&SkillTool])
    ensures
        final(out)@ == old(out)@ + tool_lines(deref_tools(tools@)),
{
    let ghost start = out@;
    let ghost ts = deref_tools(tools@);
    let mut i: usize = 0;
    while i < tools.len()
        invariant
            i <= tools@.len(),
            ts == deref_tools(tools@),
            out@ == start + tool_lines(ts.take(i as int)),
        decreases tools.len() - i,
    {
        let t: &SkillTool = tools[i];
        extend_str(out, "- **");
        extend_str(out, t.name.as_str());
        extend_str(out, "** (");
        extend_str(out, format_tool_kind(&t.kind));
        extend_str(out, "): ");
        extend_str(out, t.description.as_str());
        extend_str(out, "\n");
        proof {
            assert(ts.take(i + 1).drop_last() == ts.take(i as int));
            assert(ts.take(i + 1).last() == ts[i as int]);
        }
        i = i + 1;
    }
    assert(ts.take(ts.len() as int) == ts);
}

fn push_skills_section(out: &mut Vec<char>, skills: &[&SkillMetadata])
    ensures
        final(out)@ == old(out)@ + skills_section(deref_skills(skills@), 0),
{
    let ghost start = out@;
    let ghost ds = deref_skills(skills@);
    let mut spent: usize = 0;
    let mut i: usize = 0;
    assert(ds.skip(0) == ds);
    while i < skills.len()
        invariant
            i <= skills@.len(),
            ds == deref_skills(skills@),
            start == old(out)@,
            spent < MAX_TOTAL_SKILL_CHARS + 4 * 2100,
            out@ + skills_section(ds.skip(i as int), spent as nat) == start + skills_section(ds, 0),
        decreases skills.len() - i,
    {
        let ghost before = out@;
        let ghost rest = ds.skip(i as int);
        assert(rest[0] == ds[i as int]);
        assert(rest.drop_first() == ds.skip(i + 1));
        if spent >= MAX_TOTAL_SKILL_CHARS {
            assert(skills_section(rest, spent as nat)
                == "\n(Additional skills omitted due to context budget)\n"@);
            extend_str(out, "\n(Additional skills omitted due to context budget)\n");
            return;
        }
        let cost = push_skill_block(out, skills[i]);
        spent = spent + cost;
        i = i + 1;
    }
    assert(ds.skip(ds.len() as int) == Seq::<SkillMetadata>::empty());
}

/// Each skill's summary line fits in memory.
pub open spec fn lines_fit(skills: Seq<SkillMetadata>) -> bool {
    forall|i: int|
        0 <= i < skills.len() ==> utf8_len((#[trigger] skills[i]).name@) + utf8_len(
            skills[i].description@,
        ) + 16 <= usize::MAX
}

fn push_domain_lines(out: &mut Vec<char>, skills: &[&SkillMetadata])
    requires
        lines_fit(deref_skills(skills@)),
    ensures
        final(out)@ == old(out)@ + domain_lines(deref_skills(skills@), 0),
{
    let ghost start = out@;
    let ghost ds = deref_skills(skills@);
    let mut spent: u128 = 0;
    let mut i: usize = 0;
    assert(ds.skip(0) == ds);
    while i < skills.len()
        invariant
            i <= skills@.len(),
            ds == deref_skills(skills@),
            start == old(out)@,
            lines_fit(ds),
            spent < MAX_TOTAL_SKILL_CHARS / 2 + usize::MAX,
            out@ + domain_lines(ds.skip(i as int), spent as nat) == start + domain_lines(ds, 0),
        decreases skills.len() - i,
    {
        let ghost rest = ds.skip(i as int);
        assert(rest[0] == ds[i as int]);
        assert(rest.drop_first() == ds.skip(i + 1));
        if spent >= (MAX_TOTAL_SKILL_CHARS / 2) as u128 {
            assert(domain_lines(rest, spent as nat) == Seq::<char>::empty());
            assert(out@ + Seq::<char>::empty() == out@);
            return;
        }
        let skill: &SkillMetadata = skills[i];
        if skill.description.as_str().unicode_len() > 0 {
            let mut line: Vec<char> = to_chars("- **");
            extend_str(&mut line, skill.name.as_str());
            extend_str(&mut line, "**: ");
            extend_str(&mut line, skill.description.as_str());
            extend_str(&mut line, "\n");
            let line_s = from_chars(line.as_slice());
            proof {
                reveal_strlit("- **");
                reveal_strlit("**: ");
                reveal_strlit("\n");
                assert(ds[i as int] == *skill);
                crate::text::lemma_utf8_len_ascii("- **"@);
                crate::text::lemma_utf8_len_ascii("**: "@);
                crate::text::lemma_utf8_len_ascii("\n"@);
                crate::text::lemma_utf8_len_concat("- **"@, skill.name@);
                crate::text::lemma_utf8_len_concat("- **"@ + skill.name@, "**: "@);
                crate::text::lemma_utf8_len_concat("- **"@ + skill.name@ + "**: "@, skill.description@);
                crate::text::lemma_utf8_len_concat(
                    "- **"@ + skill.name@ + "**: "@ + skill.description@,
                    "\n"@,
                );
            }
            extend_str(out, line_s.as_str());
            let len = crate::text::byte_len(line_s.as_str());
            spent = spent + len as u128;
        }
        i = i + 1;
    }
    assert(ds.skip(ds.len() as int) == Seq::<SkillMetadata>::empty());
}

fn push_loaded_skill_lines(out: &mut Vec<char>, skills: &[&SkillMetadata])
    ensures
        final(out)@ == old(out)@ + loaded_skill_lines(deref_skills(skills@)),
{
    let ghost start = out@;
    let ghost ds = deref_skills(skills@);
    let mut i: usize = 0;
    while i < skills.len()
        invariant
            i <= skills@.len(),
            ds == deref_skills(skills@),
            out@ == start + loaded_skill_lines(ds.take(i as int)),
        decreases skills.len() - i,
    {
        let skill: &SkillMetadata = skills[i];
        extend_str(out, "- **");
        extend_str(out, skill.name.as_str());
        extend_str(out, "**: ");
        extend_str(out, skill.description.as_str());
        extend_str(out, "\n");
        proof {
            assert(ds.take(i + 1).drop_last() == ds.take(i as int));
            assert(ds.take(i + 1).last() == ds[i as int]);
        }
        i = i + 1;
    }
    assert(ds.take(ds.len() as int) == ds);
}

impl PromptBuilder {
    pub fn new() -> (b: PromptBuilder)
        ensures
            b.identity@ == DEFAULT_IDENTITY@,
            b.capabilities@ == DEFAULT_CAPABILITIES@,
    {
        PromptBuilder {
            identity: DEFAULT_IDENTITY.to_string(),
            capabilities: DEFAULT_CAPABILITIES.to_string(),
        }
    }

    pub fn with_identity(self, identity: &str) -> (b: PromptBuilder)
        ensures
            b.identity@ == identity@,
            b.capabilities == self.capabilities,
    {
        PromptBuilder { identity: identity.to_string(), capabilities: self.capabilities }
    }

    /// The planner's system prompt: identity, role, the matched skills' knowledge (each skill's
    /// content cut to 2000 characters, skills omitted once 12000 content bytes are used), the
    /// available tools, and the output instructions.
    pub fn build_planner_prompt(&self, skills: &[&SkillMetadata], tools: &[&SkillTool]) -> (r:
        String)
        ensures
            r@ == spec_planner_prompt(self.identity@, deref_skills(skills@), deref_tools(tools@)),
    {
        let mut out: Vec<char> = to_chars(self.identity.as_str());
        extend_str(&mut out, "\n\n");
        extend_str(&mut out, PLANNER_ROLE);
        let ghost a = out@;
        if skills.len() > 0 {
            extend_str(&mut out, "\n\n## Available Diagnostic Knowledge\n\n");
            push_skills_section(&mut out, skills);
        }
        let ghost b = out@;
        if tools.len() > 0 {
            extend_str(&mut out, "\n## Available Tools\n\n");
            push_tool_lines(&mut out, tools);
        }
        extend_str(&mut out, PLANNER_INSTRUCTIONS);
        proof {
            if skills@.len() == 0 {
                assert(b == a + Seq::<char>::empty());
            }
            if tools@.len() == 0 {
                assert(out@ == b + Seq::<char>::empty() + PLANNER_INSTRUCTIONS@);
            }
        }
        from_chars(out.as_slice())
    }

    /// The summarizer's system prompt: identity, role, one line per described skill until half
    /// of the skill budget is used, and the output requirements.
    pub fn build_summarizer_prompt(&self, skills: &[&SkillMetadata]) -> (r: String)
        requires
            lines_fit(deref_skills(skills@)),
        ensures
            r@ == spec_summarizer_prompt(self.identity@, deref_skills(skills@)),
    {
        let mut out: Vec<char> = to_chars(self.identity.as_str());
        extend_str(&mut out, "\n\n");
        extend_str(&mut out, SUMMARIZER_ROLE);
        let ghost a = out@;
        if skills.len() > 0 {
            extend_str(&mut out, "\n\n## Domain Knowledge\n\n");
            push_domain_lines(&mut out, skills);
        }
        extend_str(&mut out, SUMMARIZER_INSTRUCTIONS);
        proof {
            if skills@.len() == 0 {
                assert(out@ == a + Seq::<char>::empty() + SUMMARIZER_INSTRUCTIONS@);
            }
        }
        from_chars(out.as_slice())
    }

    /// The interactive session's system prompt with the loaded skills listed.
    pub fn build_repl_prompt(&self, skills: &[&SkillMetadata]) -> (r: String)
        ensures
            r@ == spec_repl_prompt(self.identity@, deref_skills(skills@)),
    {
        let mut out: Vec<char> = to_chars(self.identity.as_str());
        extend_str(&mut out, "\n\n");
        extend_str(&mut out, REPL_ROLE);
        let ghost a = out@;
        if skills.len() > 0 {
            extend_str(&mut out, "\n\n## Loaded Skills\n\n");
            extend_str(&mut out, "You have knowledge from these diagnostic skills:\n");
            push_loaded_skill_lines(&mut out, skills);
        } else {
            assert(out@ == a + Seq::<char>::empty());
        }
        from_chars(out.as_slice())
    }
}

impl Default for PromptBuilder {
    fn default() -> (b: PromptBuilder)
        ensures
            b.identity@ == DEFAULT_IDENTITY@,
            b.capabilities@ == DEFAULT_CAPABILITIES@,
    {
        PromptBuilder::new()
    }
}

} // verus!
