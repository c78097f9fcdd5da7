//! Skill system types.

use std::collections::HashMap;
use vstd::prelude::*;

verus! {

/// Skill metadata: what the registry knows of a loaded skill.
#[derive(Debug, Clone)]
pub struct SkillMetadata {
    pub name: String,
    pub description: String,
    pub version: String,
    pub author: Option<String>,
    pub tags: Vec<String>,
    pub always: bool,
    /// Full markdown content for the model to understand and execute.
    pub raw_content: String,
    /// Scenarios where this skill applies.
    pub applicability: Vec<String>,
    /// Domain tags used for routing (gpu, hami, apisix, coredns, ...).
    pub domain_tags: Vec<String>,
    /// Tools the skill declares.
    pub tools: Vec<SkillTool>,
}

impl Default for SkillMetadata {
    fn default() -> (r: Self)
        ensures
            r.name@.len() == 0,
            r.description@.len() == 0,
            r.version@.len() == 0,
            r.author is None,
            r.tags@.len() == 0,
            !r.always,
            r.raw_content@.len() == 0,
            r.applicability@.len() == 0,
            r.domain_tags@.len() == 0,
            r.tools@.len() == 0,
    {
        SkillMetadata {
            name: String::new(),
            description: String::new(),
            version: String::new(),
            author: None,
            tags: Vec::new(),
            always: false,
            raw_content: String::new(),
            applicability: Vec::new(),
            domain_tags: Vec::new(),
            tools: Vec::new(),
        }
    }
}

/// Skill tool definition.
#[derive(Debug, Clone)]
pub struct SkillTool {
    pub name: String,
    pub description: String,
    pub kind: ToolKind,
    pub command: String,
    pub args: HashMap<String, String>,
    pub env: HashMap<String, String>,
    pub timeout_secs: Option<u64>,
}

/// Tool execution kind.
#[derive(Debug, Clone, Copy, PartialEq, Eq, Structural)]
pub enum ToolKind {
    Shell,
    Http,
    Script,
}

/// Skill prompts.
#[derive(Debug, Clone, Default)]
pub struct SkillPrompts {
    pub system_prompt: Option<String>,
    pub compact_prompt: Option<String>,
}

/// Type of evidence.
#[derive(Debug, Clone, Copy, PartialEq, Eq, Structural)]
pub enum EvidenceType {
    Query,
    Response,
    Command,
    Result,
    Error,
}

/// Skill execution context.
#[derive(Debug, Clone)]
pub struct SkillContext {
    pub skill_name: String,
    pub user_id: String,
    pub channel: String,
    pub thread_id: Option<String>,
    pub parameters: HashMap<String, String>,
    pub session_id: Option<String>,
}

/// Skill manifest (from SKILL.toml, or parsed from SKILL.md).
#[derive(Debug, Clone)]
pub struct SkillManifest {
    pub name: String,
    pub description: String,
    pub version: String,
    pub author: Option<String>,
    pub tags: Vec<String>,
    pub always: bool,
    pub tools: Vec<SkillTool>,
    pub prompts: SkillPrompts,
    pub dependencies: Vec<String>,
    /// Full markdown content (for SKILL.md).
    pub raw_content: String,
    /// Applicability scenarios (for SKILL.md).
    pub applicability: Vec<String>,
    /// Domain tags (for SKILL.md).
    pub domain_tags: Vec<String>,
}

impl SkillManifest {
    /// The registry's view of the manifest: every shared field carried over unchanged;
    /// prompts and dependencies are dropped.
    pub fn into_metadata(self) -> (m: SkillMetadata)
        ensures
            m.name == self.name,
            m.description == self.description,
            m.version == self.version,
            m.author == self.author,
            m.tags == self.tags,
            m.always == self.always,
            m.raw_content == self.raw_content,
            m.applicability == self.applicability,
            m.domain_tags == self.domain_tags,
            m.tools == self.tools,
    {
        SkillMetadata {
            name: self.name,
            description: self.description,
            version: self.version,
            author: self.author,
            tags: self.tags,
            always: self.always,
            raw_content: self.raw_content,
            applicability: self.applicability,
            domain_tags: self.domain_tags,
            tools: self.tools,
        }
    }
}

} // verus!
