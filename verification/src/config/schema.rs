//! Configuration schema. Tables keyed by name are kept as `(name, value)` lists in file order.

use vstd::prelude::*;

verus! {

// ============================================================================
// LLM configuration
// ============================================================================

#[derive(Debug, Clone)]
pub struct LLMConfig {
    pub enabled: bool,
    pub default_provider: String,
    pub routing: LLMRoutingConfig,
    pub providers: Vec<(String, LLMProviderConfig)>,
}

pub fn default_llm_enabled() -> (b: bool)
    ensures
        b,
{
    true
}

pub fn default_llm_provider() -> (s: String)
    ensures
        s@ == "anthropic"@,
{
    "anthropic".to_string()
}

#[derive(Debug, Clone)]
pub struct LLMRoutingConfig {
    pub mode: String,
    pub openrouter: OpenRouterConfig,
    pub ollama: OllamaConfig,
}

pub fn default_routing_mode() -> (s: String)
    ensures
        s@ == "direct"@,
{
    "direct".to_string()
}

#[derive(Debug, Clone)]
pub struct OpenRouterConfig {
    pub enabled: bool,
    pub base_url: Option<String>,
    pub api_key: Option<String>,
}

#[derive(Debug, Clone)]
pub struct OllamaConfig {
    pub enabled: bool,
    pub base_url: String,
    pub model: Option<String>,
    pub timeout_secs: Option<u64>,
}

pub fn default_ollama_url() -> (s: String)
    ensures
        s@ == "http://localhost:11434"@,
{
    "http://localhost:11434".to_string()
}

#[derive(Debug, Clone)]
pub struct LLMProviderConfig {
    pub enabled: bool,
    pub provider_type: String,
    pub api_key: Option<String>,
    pub base_url: Option<String>,
    pub model: String,
    pub max_tokens: u32,
    pub timeout_secs: u64,
    pub retry_attempts: u32,
    pub extra_headers: Vec<(String, String)>,
}

pub fn default_llm_model() -> (s: String)
    ensures
        s@ == "gpt-4o"@,
{
    "gpt-4o".to_string()
}

pub fn default_llm_max_tokens() -> (n: u32)
    ensures
        n == 1024,
{
    1024
}

pub fn default_llm_timeout() -> (n: u64)
    ensures
        n == 60,
{
    60
}

impl Default for LLMConfig {
    fn default() -> (c: LLMConfig)
        ensures
            c.enabled,
            c.default_provider@ == "anthropic"@,
            c.routing.mode@ == "direct"@,
            !c.routing.openrouter.enabled,
            c.routing.openrouter.base_url matches Some(u) && u@ == "https://openrouter.ai/api"@,
            c.routing.openrouter.api_key is None,
            !c.routing.ollama.enabled,
            c.routing.ollama.base_url@ == "http://localhost:11434"@,
            c.routing.ollama.model matches Some(m) && m@ == "llama3"@,
            c.routing.ollama.timeout_secs == Some(120u64),
            c.providers@.len() == 0,
    {
        LLMConfig {
            enabled: default_llm_enabled(),
            default_provider: default_llm_provider(),
            routing: LLMRoutingConfig::default(),
            providers: Vec::new(),
        }
    }
}

impl Default for LLMRoutingConfig {
    fn default() -> (c: LLMRoutingConfig)
        ensures
            c.mode@ == "direct"@,
            !c.openrouter.enabled,
            c.openrouter.base_url matches Some(u) && u@ == "https://openrouter.ai/api"@,
            c.openrouter.api_key is None,
            !c.ollama.enabled,
            c.ollama.base_url@ == "http://localhost:11434"@,
            c.ollama.model matches Some(m) && m@ == "llama3"@,
            c.ollama.timeout_secs == Some(120u64),
    {
        LLMRoutingConfig {
            mode: default_routing_mode(),
            openrouter: OpenRouterConfig::default(),
            ollama: OllamaConfig::default(),
        }
    }
}

impl Default for OpenRouterConfig {
    fn default() -> (c: OpenRouterConfig)
        ensures
            !c.enabled,
            c.base_url matches Some(u) && u@ == "https://openrouter.ai/api"@,
            c.api_key is None,
    {
        OpenRouterConfig {
            enabled: false,
            base_url: Some("https://openrouter.ai/api".to_string()),
            api_key: None,
        }
    }
}

impl Default for OllamaConfig {
    fn default() -> (c: OllamaConfig)
        ensures
            !c.enabled,
            c.base_url@ == "http://localhost:11434"@,
            c.model matches Some(m) && m@ == "llama3"@,
            c.timeout_secs == Some(120u64),
    {
        OllamaConfig {
            enabled: false,
            base_url: default_ollama_url(),
            model: Some("llama3".to_string()),
            timeout_secs: Some(120),
        }
    }
}

impl Default for LLMProviderConfig {
    fn default() -> (c: LLMProviderConfig)
        ensures
            !c.enabled,
            c.provider_type@ == "openai"@,
            c.api_key is None,
            c.base_url is None,
            c.model@ == "gpt-4o"@,
            c.max_tokens == 1024,
            c.timeout_secs == 60,
            c.retry_attempts == 3,
            c.extra_headers@.len() == 0,
    {
        LLMProviderConfig {
            enabled: false,
            provider_type: "openai".to_string(),
            api_key: None,
            base_url: None,
            model: default_llm_model(),
            max_tokens: default_llm_max_tokens(),
            timeout_secs: default_llm_timeout(),
            retry_attempts: 3,
            extra_headers: Vec::new(),
        }
    }
}

// ============================================================================
// Top level
// ============================================================================

#[derive(Debug, Clone)]
pub struct Config {
    pub agent: AgentConfig,
    pub channels: Vec<(String, ChannelConfig)>,
    pub skills: SkillsConfig,
    pub mcp: MCPConfig,
    pub aiops: Vec<(String, AIOpsProviderConfig)>,
    /// Logical cluster name to kubectl `--context` mapping.
    pub clusters: Vec<(String, ClusterConfig)>,
    pub observability: ObservabilityConfig,
    pub security: SecurityConfig,
    pub logging: LoggingConfig,
    pub llm: LLMConfig,
}

/// Whether a channel entry is switched on.
pub open spec fn spec_channel_enabled(c: ChannelConfig) -> bool {
    match c {
        ChannelConfig::Feishu(f) => f.enabled,
        ChannelConfig::WeCom(w) => w.enabled,
        ChannelConfig::Local(l) => l.enabled,
    }
}

pub fn channel_config_enabled(c: &ChannelConfig) -> (b: bool)
    ensures
        b == spec_channel_enabled(*c),
{
    match c {
        ChannelConfig::Feishu(f) => f.enabled,
        ChannelConfig::WeCom(w) => w.enabled,
        ChannelConfig::Local(l) => l.enabled,
    }
}

/// The enabled channel entries, in order.
pub open spec fn enabled_channels(chs: Seq<(String, ChannelConfig)>) -> Seq<ChannelConfig>
    decreases chs.len(),
{
    if chs.len() == 0 {
        Seq::empty()
    } else if spec_channel_enabled(chs.last().1) {
        enabled_channels(chs.drop_last()).push(chs.last().1)
    } else {
        enabled_channels(chs.drop_last())
    }
}

/// A local channel reading standard input.
pub open spec fn is_local_stdio(c: ChannelConfig) -> bool {
    c matches ChannelConfig::Local(l) && l.mode == LocalChannelMode::Stdio
}

/// The only enabled channel is a local stdio one.
pub open spec fn only_local_stdio(chs: Seq<(String, ChannelConfig)>) -> bool {
    enabled_channels(chs).len() == 1 && is_local_stdio(enabled_channels(chs)[0])
}

/// Interactive mode is the default: no channels, none enabled, or the only enabled one is a
/// local stdio channel.
pub open spec fn spec_interactive_default(chs: Seq<(String, ChannelConfig)>) -> bool {
    chs.len() == 0 || enabled_channels(chs).len() == 0 || only_local_stdio(chs)
}

/// Counts the enabled channels and remembers the last one seen.
fn scan_enabled(chs: &Vec<(String, ChannelConfig)>) -> (r: (usize, Option<usize>))
    ensures
        r.0 == enabled_channels(chs@).len(),
        r.0 > 0 ==> (r.1 matches Some(k) && k < chs@.len() && chs@[k as int].1
            == enabled_channels(chs@).last()),
        r.0 == 0 ==> r.1 is None,
{
    let mut count: usize = 0;
    let mut last: Option<usize> = None;
    let mut i: usize = 0;
    while i < chs.len()
        invariant
            i <= chs@.len(),
            count == enabled_channels(chs@.take(i as int)).len(),
            count <= i,
            count > 0 ==> (last matches Some(k) && k < i && chs@[k as int].1 == enabled_channels(
                chs@.take(i as int),
            ).last()),
            count == 0 ==> last is None,
        decreases chs.len() - i,
    {
        proof {
            assert(chs@.take(i + 1).drop_last() == chs@.take(i as int));
            assert(chs@.take(i + 1).last() == chs@[i as int]);
        }
        if channel_config_enabled(&chs[i].1) {
            count = count + 1;
            last = Some(i);
        }
        i = i + 1;
    }
    assert(chs@.take(chs@.len() as int) == chs@);
    (count, last)
}

impl Config {
    /// Capacity of the agent's inbound queue: 1 when the only enabled channel is a local stdio
    /// one (so a further line waits for the current reply), else 100.
    pub fn agent_message_channel_capacity(&self) -> (n: usize)
        ensures
            n == (if only_local_stdio(self.channels@) {
                1usize
            } else {
                100usize
            }),
    {
        let (count, last) = scan_enabled(&self.channels);
        if count == 1 {
            let k = last.unwrap();
            match &self.channels[k].1 {
                ChannelConfig::Local(l) => {
                    if l.mode == LocalChannelMode::Stdio {
                        return 1;
                    }
                },
                _ => {},
            }
        }
        100
    }

    /// Whether the configuration implies the interactive terminal mode.
    pub fn is_interactive_default(&self) -> (b: bool)
        ensures
            b == spec_interactive_default(self.channels@),
    {
        if self.channels.len() == 0 {
            return true;
        }
        let (count, last) = scan_enabled(&self.channels);
        if count == 0 {
            return true;
        }
        if count == 1 {
            let k = last.unwrap();
            match &self.channels[k].1 {
                ChannelConfig::Local(l) => {
                    return l.mode == LocalChannelMode::Stdio;
                },
                _ => {},
            }
        }
        false
    }
}

#[derive(Debug, Clone)]
pub struct AgentConfig {
    pub name: String,
    pub session_timeout_secs: u64,
    pub concurrent_limit: usize,
    pub default_cluster: Option<String>,
    pub compact_prompt: bool,
}

pub fn default_name() -> (s: String)
    ensures
        s@ == "aiclaw"@,
{
    "aiclaw".to_string()
}

pub fn default_session_timeout() -> (n: u64)
    ensures
        n == 3600,
{
    3600
}

pub fn default_concurrent_limit() -> (n: usize)
    ensures
        n == 100,
{
    100
}

impl Default for AgentConfig {
    fn default() -> (c: AgentConfig)
        ensures
            c.name@ == "aiclaw"@,
            c.session_timeout_secs == 3600,
            c.concurrent_limit == 100,
            c.default_cluster is None,
            !c.compact_prompt,
    {
        AgentConfig {
            name: default_name(),
            session_timeout_secs: default_session_timeout(),
            concurrent_limit: default_concurrent_limit(),
            default_cluster: None,
            compact_prompt: false,
        }
    }
}

#[derive(Debug, Clone)]
pub enum ChannelConfig {
    Feishu(FeishuConfig),
    WeCom(WeComConfig),
    Local(LocalConfig),
}

/// Local terminal or WebSocket gateway.
#[derive(Debug, Clone, Copy, PartialEq, Eq, Structural)]
pub enum LocalChannelMode {
    /// Read user lines from stdin; print replies to stdout.
    Stdio,
    /// Bind HTTP and a `/ws` WebSocket on `bind`:`port`.
    Http,
}

impl Default for LocalChannelMode {
    fn default() -> (m: LocalChannelMode)
        ensures
            m == LocalChannelMode::Stdio,
    {
        LocalChannelMode::Stdio
    }
}

pub fn default_local_bind() -> (s: String)
    ensures
        s@ == "127.0.0.1"@,
{
    "127.0.0.1".to_string()
}

pub fn default_local_port() -> (n: u16)
    ensures
        n == 18789,
{
    18789
}

#[derive(Debug, Clone)]
pub struct LocalConfig {
    pub enabled: bool,
    pub mode: LocalChannelMode,
    pub bind: String,
    pub port: u16,
}

#[derive(Debug, Clone)]
pub struct FeishuConfig {
    pub enabled: bool,
    pub bot_name: Option<String>,
    pub verify_token: Option<String>,
    pub encrypt_key: Option<String>,
    pub app_id: Option<String>,
    pub app_secret: Option<String>,
    pub webhook_url: Option<String>,
    /// Local address for incoming webhooks (e.g. "0.0.0.0:8089").
    pub webhook_listen_addr: Option<String>,
    pub polling_timeout_secs: u64,
}

#[derive(Debug, Clone)]
pub struct WeComConfig {
    pub enabled: bool,
    pub corp_id: Option<String>,
    pub corp_secret: Option<String>,
    pub agent_id: Option<String>,
    pub webhook_url: Option<String>,
    /// Local address for incoming webhooks (e.g. "0.0.0.0:8090").
    pub webhook_listen_addr: Option<String>,
}

#[derive(Debug, Clone)]
pub struct SkillsConfig {
    pub skills_dir: String,
    pub open_skills_enabled: bool,
    pub open_skills_dir: Option<String>,
    pub allowed_scripts: bool,
    pub trusted_skill_roots: Vec<String>,
    /// Model-driven shell execution policy.
    pub exec_config: SkillsExecConfig,
}

impl SkillsConfig {
    /// The default skills settings with the given skills directory (normally
    /// `~/.aiclaw/skills`).
    pub fn with_skills_dir(skills_dir: String) -> (c: SkillsConfig)
        ensures
            c.skills_dir == skills_dir,
            !c.open_skills_enabled,
            c.open_skills_dir is None,
            !c.allowed_scripts,
            c.trusted_skill_roots@.len() == 0,
            !c.exec_config.enabled,
            c.exec_config.security == SkillsExecSecurity::Allowlist,
            c.exec_config.max_steps == 10,
            c.exec_config.timeout_secs == 120,
            !c.exec_config.prepend_kubectl_context,
            !c.exec_config.allow_helm,
    {
        SkillsConfig {
            skills_dir,
            open_skills_enabled: default_open_skills_enabled(),
            open_skills_dir: None,
            allowed_scripts: false,
            trusted_skill_roots: Vec::new(),
            exec_config: SkillsExecConfig::default(),
        }
    }
}

/// How skill-driven shell commands are validated before they run.
#[derive(Debug, Clone, Copy, PartialEq, Eq, Structural)]
pub enum SkillsExecSecurity {
    /// Reject every shell command.
    Deny,
    /// kubectl/helm allowlists and blocked substrings.
    Allowlist,
    /// Any base command except blocked keywords and pipes.
    Full,
}

impl Default for SkillsExecSecurity {
    fn default() -> (s: SkillsExecSecurity)
        ensures
            s == SkillsExecSecurity::Allowlist,
    {
        SkillsExecSecurity::Allowlist
    }
}

#[derive(Debug, Clone)]
pub struct SkillsExecConfig {
    pub enabled: bool,
    pub security: SkillsExecSecurity,
    pub max_steps: usize,
    pub timeout_secs: u64,
    pub prepend_kubectl_context: bool,
    pub allow_helm: bool,
}

pub fn default_skills_exec_max_steps() -> (n: usize)
    ensures
        n == 10,
{
    10
}

pub fn default_skills_exec_timeout_secs() -> (n: u64)
    ensures
        n == 120,
{
    120
}

impl Default for SkillsExecConfig {
    fn default() -> (c: SkillsExecConfig)
        ensures
            !c.enabled,
            c.security == SkillsExecSecurity::Allowlist,
            c.max_steps == 10,
            c.timeout_secs == 120,
            !c.prepend_kubectl_context,
            !c.allow_helm,
    {
        SkillsExecConfig {
            enabled: false,
            security: SkillsExecSecurity::Allowlist,
            max_steps: default_skills_exec_max_steps(),
            timeout_secs: default_skills_exec_timeout_secs(),
            prepend_kubectl_context: false,
            allow_helm: false,
        }
    }
}

pub fn default_open_skills_enabled() -> (b: bool)
    ensures
        !b,
{
    false
}

#[derive(Debug, Clone)]
pub struct MCPConfig {
    pub servers: Vec<(String, MCPServerConfig)>,
    pub transport: MCPTransport,
}

#[derive(Debug, Clone)]
pub enum MCPTransport {
    Stdio,
    SSE { url: String },
}

impl Default for MCPConfig {
    fn default() -> (c: MCPConfig)
        ensures
            c.servers@.len() == 0,
            c.transport is Stdio,
    {
        MCPConfig { servers: Vec::new(), transport: MCPTransport::Stdio }
    }
}

#[derive(Debug, Clone)]
pub struct MCPServerConfig {
    pub enabled: bool,
    pub command: String,
    pub args: Vec<String>,
    pub env: Vec<(String, String)>,
}

#[derive(Debug, Clone)]
pub struct AIOpsProviderConfig {
    pub enabled: bool,
    pub provider_type: String,
    pub endpoint: String,
    pub timeout_secs: u64,
    pub retry_attempts: u32,
    pub headers: Vec<(String, String)>,
}

pub fn default_timeout() -> (n: u64)
    ensures
        n == 30,
{
    30
}

#[derive(Debug, Clone)]
pub struct ClusterConfig {
    pub enabled: bool,
    /// kubectl `--context`; the logical name is used when absent.
    pub context: Option<String>,
}

impl ClusterConfig {
    /// Context passed to `kubectl --context=...`: the configured one, else the logical name.
    pub fn kubectl_context_name<'a>(&'a self, logical_name: &'a str) -> (r: &'a str)
        ensures
            r@ == (match self.context {
                Some(c) => c@,
                None => logical_name@,
            }),
    {
        match &self.context {
            Some(c) => c.as_str(),
            None => logical_name,
        }
    }
}

#[derive(Debug, Clone)]
pub struct ObservabilityConfig {
    pub observability_type: ObservabilityType,
    pub otel_endpoint: Option<String>,
    pub metrics_port: Option<u16>,
    pub tracing_level: TracingLevel,
}

impl Default for ObservabilityConfig {
    fn default() -> (c: ObservabilityConfig)
        ensures
            c.observability_type == ObservabilityType::Log,
            c.otel_endpoint is None,
            c.metrics_port is None,
            c.tracing_level == TracingLevel::Info,
    {
        ObservabilityConfig {
            observability_type: ObservabilityType::Log,
            otel_endpoint: None,
            metrics_port: None,
            tracing_level: TracingLevel::Info,
        }
    }
}

#[derive(Debug, Clone, Copy, PartialEq, Eq, Structural)]
pub enum ObservabilityType {
    Log,
    Prometheus,
    OpenTelemetry,
}

#[derive(Debug, Clone, Copy, PartialEq, Eq, Structural)]
pub enum TracingLevel {
    Info,
    Debug,
    Warn,
    Error,
}

#[derive(Debug, Clone)]
pub struct SecurityConfig {
    pub dangerous_commands: Vec<String>,
    pub sensitive_path_suffixes: Vec<String>,
    pub api_key_vault: Option<String>,
}

pub open spec fn strings_of(v: Seq<String>) -> Seq<Seq<char>> {
    Seq::new(v.len(), |i: int| v[i]@)
}

pub fn default_dangerous_commands() -> (v: Vec<String>)
    ensures
        strings_of(v@) == seq!["rm"@, "dd"@, "mkfs"@, ">:"@, "|"@, "&"@, ";"@],
{
    let mut v: Vec<String> = Vec::new();
    v.push("rm".to_string());
    v.push("dd".to_string());
    v.push("mkfs".to_string());
    v.push(">:".to_string());
    v.push("|".to_string());
    v.push("&".to_string());
    v.push(";".to_string());
    assert(strings_of(v@) =~= seq!["rm"@, "dd"@, "mkfs"@, ">:"@, "|"@, "&"@, ";"@]);
    v
}

impl Default for SecurityConfig {
    fn default() -> (c: SecurityConfig)
        ensures
            strings_of(c.dangerous_commands@) == seq!["rm"@, "dd"@, "mkfs"@, ">:"@, "|"@, "&"@, ";"@],
            c.sensitive_path_suffixes@.len() == 0,
            c.api_key_vault is None,
    {
        SecurityConfig {
            dangerous_commands: default_dangerous_commands(),
            sensitive_path_suffixes: Vec::new(),
            api_key_vault: None,
        }
    }
}

#[derive(Debug, Clone)]
pub struct LoggingConfig {
    pub level: String,
    pub format: LogFormat,
    pub output: LogOutput,
}

pub fn default_log_level() -> (s: String)
    ensures
        s@ == "info"@,
{
    "info".to_string()
}

impl Default for LoggingConfig {
    fn default() -> (c: LoggingConfig)
        ensures
            c.level@ == "info"@,
            c.format == LogFormat::Json,
            c.output is Stdout,
    {
        LoggingConfig { level: default_log_level(), format: LogFormat::Json, output: LogOutput::Stdout }
    }
}

#[derive(Debug, Clone, Copy, PartialEq, Eq, Structural)]
pub enum LogFormat {
    Json,
    Plain,
}

#[derive(Debug, Clone)]
pub enum LogOutput {
    Stdout,
    File { path: String },
}

/// The built-in configuration with the given skills directory: every setting at its default,
/// no channels, AIOps back ends, clusters, MCP servers or model providers.
pub open spec fn is_default_config(c: Config, skills_dir: String) -> bool {
    &&& c.agent.name@ == "aiclaw"@
    &&& c.agent.session_timeout_secs == 3600
    &&& c.agent.concurrent_limit == 100
    &&& c.agent.default_cluster is None
    &&& !c.agent.compact_prompt
    &&& c.channels@.len() == 0
    &&& c.skills.skills_dir == skills_dir
    &&& !c.skills.open_skills_enabled
    &&& c.skills.open_skills_dir is None
    &&& !c.skills.allowed_scripts
    &&& c.skills.trusted_skill_roots@.len() == 0
    &&& !c.skills.exec_config.enabled
    &&& c.skills.exec_config.security == SkillsExecSecurity::Allowlist
    &&& c.skills.exec_config.max_steps == 10
    &&& c.skills.exec_config.timeout_secs == 120
    &&& !c.skills.exec_config.prepend_kubectl_context
    &&& !c.skills.exec_config.allow_helm
    &&& c.mcp.servers@.len() == 0
    &&& c.mcp.transport is Stdio
    &&& c.aiops@.len() == 0
    &&& c.clusters@.len() == 0
    &&& c.observability.observability_type == ObservabilityType::Log
    &&& c.observability.otel_endpoint is None
    &&& c.observability.metrics_port is None
    &&& c.observability.tracing_level == TracingLevel::Info
    &&& strings_of(c.security.dangerous_commands@) == seq!["rm"@, "dd"@, "mkfs"@, ">:"@, "|"@, "&"@, ";"@]
    &&& c.security.sensitive_path_suffixes@.len() == 0
    &&& c.security.api_key_vault is None
    &&& c.logging.level@ == "info"@
    &&& c.logging.format == LogFormat::Json
    &&& c.logging.output is Stdout
    &&& c.llm.enabled
    &&& c.llm.default_provider@ == "anthropic"@
    &&& c.llm.routing.mode@ == "direct"@
    &&& !c.llm.routing.openrouter.enabled
    &&& (c.llm.routing.openrouter.base_url matches Some(u) && u@ == "https://openrouter.ai/api"@)
    &&& c.llm.routing.openrouter.api_key is None
    &&& !c.llm.routing.ollama.enabled
    &&& c.llm.routing.ollama.base_url@ == "http://localhost:11434"@
    &&& (c.llm.routing.ollama.model matches Some(m) && m@ == "llama3"@)
    &&& c.llm.routing.ollama.timeout_secs == Some(120u64)
    &&& c.llm.providers@.len() == 0
}

impl Config {
    /// The built-in configuration, with the given skills directory.
    /// The configuration read from a file when there is one (its parse result as it came),
    /// else the defaults with the given skills directory.
    pub fn load_or_default(file: Option<Result<Config, String>>, skills_dir: String) -> (r: Result<Config, String>)
        ensures
            file is Some ==> r == file.unwrap(),
            file is None ==> (r matches Ok(c) && is_default_config(c, skills_dir)),
    {
        match file {
            Some(r) => r,
            None => Ok(Config::default_with_skills_dir(skills_dir)),
        }
    }

    pub fn default_with_skills_dir(skills_dir: String) -> (c: Config)
        ensures
            is_default_config(c, skills_dir),
            c.agent.name@ == "aiclaw"@,
            c.channels@.len() == 0,
            c.skills.skills_dir == skills_dir,
            c.mcp.servers@.len() == 0,
            c.aiops@.len() == 0,
            c.clusters@.len() == 0,
            c.llm.enabled,
            c.llm.default_provider@ == "anthropic"@,
            c.llm.providers@.len() == 0,
    {
        Config {
            agent: AgentConfig::default(),
            channels: Vec::new(),
            skills: SkillsConfig::with_skills_dir(skills_dir),
            mcp: MCPConfig::default(),
            aiops: Vec::new(),
            clusters: Vec::new(),
            observability: ObservabilityConfig::default(),
            security: SecurityConfig::default(),
            logging: LoggingConfig::default(),
            llm: LLMConfig::default(),
        }
    }
}

} // verus!
