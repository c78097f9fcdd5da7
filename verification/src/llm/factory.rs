//! Which provider and which router a configuration asks for. The clients themselves are built
//! by the application once the kind is decided.

use crate::json::str_view;
use crate::text::{extend_str, from_chars, str_eq, strings_view, to_chars};
use vstd::prelude::*;

verus! {

/// Configuration of one provider.
#[derive(Debug, Clone)]
pub struct ProviderConfig {
    pub provider_type: String,
    pub api_key: String,
    pub base_url: Option<String>,
    pub model: String,
    pub max_tokens: u32,
    pub timeout_secs: u64,
}

impl ProviderConfig {
    /// A provider of the given type and key, with `gpt-4o`, 1024 tokens, a 60 second timeout
    /// and the provider's own endpoint.
    pub fn new(provider_type: &str, api_key: &str) -> (c: ProviderConfig)
        ensures
            c.provider_type@ == provider_type@,
            c.api_key@ == api_key@,
            c.base_url is None,
            c.model@ == "gpt-4o"@,
            c.max_tokens == 1024,
            c.timeout_secs == 60,
    {
        ProviderConfig {
            provider_type: provider_type.to_string(),
            api_key: api_key.to_string(),
            base_url: None,
            model: "gpt-4o".to_string(),
            max_tokens: 1024,
            timeout_secs: 60,
        }
    }

    pub fn with_base_url(self, url: &str) -> (c: ProviderConfig)
        ensures
            c == (ProviderConfig { base_url: c.base_url, ..self }),
            str_view(c.base_url) == Some(url@),
    {
        ProviderConfig { base_url: Some(url.to_string()), ..self }
    }

    pub fn with_model(self, model: &str) -> (c: ProviderConfig)
        ensures
            c == (ProviderConfig { model: c.model, ..self }),
            c.model@ == model@,
    {
        ProviderConfig { model: model.to_string(), ..self }
    }

    pub fn with_max_tokens(self, tokens: u32) -> (c: ProviderConfig)
        ensures
            c == (ProviderConfig { max_tokens: tokens, ..self }),
    {
        ProviderConfig { max_tokens: tokens, ..self }
    }

    pub fn with_timeout(self, secs: u64) -> (c: ProviderConfig)
        ensures
            c == (ProviderConfig { timeout_secs: secs, ..self }),
    {
        ProviderConfig { timeout_secs: secs, ..self }
    }
}

/// Configuration of the routing layer.
#[derive(Debug, Clone)]
pub struct RouterConfig {
    pub mode: String,
    pub openrouter_api_key: Option<String>,
    pub openrouter_base_url: Option<String>,
    pub ollama_base_url: Option<String>,
    pub ollama_model: Option<String>,
}

impl RouterConfig {
    pub fn new(mode: &str) -> (c: RouterConfig)
        ensures
            c.mode@ == mode@,
            c.openrouter_api_key is None,
            c.openrouter_base_url is None,
            c.ollama_base_url is None,
            c.ollama_model is None,
    {
        RouterConfig {
            mode: mode.to_string(),
            openrouter_api_key: None,
            openrouter_base_url: None,
            ollama_base_url: None,
            ollama_model: None,
        }
    }

    pub fn with_openrouter(self, api_key: &str, base_url: Option<String>) -> (c: RouterConfig)
        ensures
            c == (RouterConfig {
                openrouter_api_key: c.openrouter_api_key,
                openrouter_base_url: base_url,
                ..self
            }),
            str_view(c.openrouter_api_key) == Some(api_key@),
    {
        RouterConfig {
            openrouter_api_key: Some(api_key.to_string()),
            openrouter_base_url: base_url,
            ..self
        }
    }

    pub fn with_ollama(self, base_url: &str, model: Option<String>) -> (c: RouterConfig)
        ensures
            c == (RouterConfig { ollama_base_url: c.ollama_base_url, ollama_model: model, ..self }),
            str_view(c.ollama_base_url) == Some(base_url@),
    {
        RouterConfig { ollama_base_url: Some(base_url.to_string()), ollama_model: model, ..self }
    }
}

/// The provider implementations.
#[derive(Debug, Clone, Copy, PartialEq, Eq, Structural)]
pub enum ProviderKind {
    OpenAI,
    Anthropic,
    DeepSeek,
    Zhipu,
    MiniMax,
    Qwen,
}

/// Why a provider or router cannot be built.
#[derive(Debug, Clone, PartialEq, Eq)]
pub enum FactoryError {
    /// The provider type is not one of the known ones; carries it.
    UnknownProvider(String),
    /// The routing mode is not one of the known ones; carries it.
    UnknownRoutingMode(String),
    /// OpenRouter routing was asked for without an API key.
    MissingOpenRouterKey,
}

/// The message of a factory error.
pub open spec fn factory_error_message(e: FactoryError) -> Seq<char> {
    match e {
        FactoryError::UnknownProvider(t) => "Unknown provider type: "@ + t@,
        FactoryError::UnknownRoutingMode(m) => "Unknown routing mode: "@ + m@,
        FactoryError::MissingOpenRouterKey => "OpenRouter API key not provided"@,
    }
}

impl FactoryError {
    /// The error's message.
    pub fn message(&self) -> (r: String)
        ensures
            r@ == factory_error_message(*self),
    {
        let (prefix, rest): (&str, &str) = match self {
            FactoryError::UnknownProvider(t) => ("Unknown provider type: ", t.as_str()),
            FactoryError::UnknownRoutingMode(m) => ("Unknown routing mode: ", m.as_str()),
            FactoryError::MissingOpenRouterKey => ("OpenRouter API key not provided", ""),
        };
        let mut v = to_chars(prefix);
        extend_str(&mut v, rest);
        proof {
            reveal_strlit("");
            assert(prefix@ + ""@ =~= prefix@);
        }
        from_chars(v.as_slice())
    }
}

/// The provider implementation a type names.
pub open spec fn provider_kind(t: Seq<char>) -> Option<ProviderKind> {
    if t == "openai"@ {
        Some(ProviderKind::OpenAI)
    } else if t == "anthropic"@ {
        Some(ProviderKind::Anthropic)
    } else if t == "deepseek"@ {
        Some(ProviderKind::DeepSeek)
    } else if t == "zhipu"@ {
        Some(ProviderKind::Zhipu)
    } else if t == "minimax"@ {
        Some(ProviderKind::MiniMax)
    } else if t == "qwen"@ {
        Some(ProviderKind::Qwen)
    } else {
        None
    }
}

/// Chooses provider implementations.
pub struct LLMProviderFactory;

impl LLMProviderFactory {
    /// The implementation for a provider entry, or the unknown type.
    pub fn create(_name: &str, config: &ProviderConfig) -> (r: Result<ProviderKind, FactoryError>)
        ensures
            match provider_kind(config.provider_type@) {
                Some(k) => r == Ok::<ProviderKind, FactoryError>(k),
                None => r matches Err(FactoryError::UnknownProvider(t)) && t@
                    == config.provider_type@,
            },
    {
        let t = config.provider_type.as_str();
        if str_eq(t, "openai") {
            Ok(ProviderKind::OpenAI)
        } else if str_eq(t, "anthropic") {
            Ok(ProviderKind::Anthropic)
        } else if str_eq(t, "deepseek") {
            Ok(ProviderKind::DeepSeek)
        } else if str_eq(t, "zhipu") {
            Ok(ProviderKind::Zhipu)
        } else if str_eq(t, "minimax") {
            Ok(ProviderKind::MiniMax)
        } else if str_eq(t, "qwen") {
            Ok(ProviderKind::Qwen)
        } else {
            Err(FactoryError::UnknownProvider(config.provider_type.clone()))
        }
    }

    /// The entries whose type is known, each with its implementation, in order; the others are
    /// skipped.
    pub fn create_all(configs: &Vec<(String, ProviderConfig)>) -> (r: Vec<(String, ProviderKind)>)
        ensures
            kinds_view(r@) == known_providers(configs@),
    {
        let mut r: Vec<(String, ProviderKind)> = Vec::new();
        let mut i: usize = 0;
        while i < configs.len()
            invariant
                i <= configs@.len(),
                kinds_view(r@) == known_providers(configs@.take(i as int)),
            decreases configs.len() - i,
        {
            assert(configs@.take(i + 1).drop_last() =~= configs@.take(i as int));
            match Self::create(configs[i].0.as_str(), &configs[i].1) {
                Ok(k) => {
                    let ghost before = kinds_view(r@);
                    r.push((configs[i].0.clone(), k));
                    assert(kinds_view(r@) =~= before.push((configs@[i as int].0@, k)));
                },
                Err(_) => {},
            }
            i = i + 1;
        }
        assert(configs@.take(i as int) =~= configs@);
        r
    }
}

pub open spec fn kinds_view(s: Seq<(String, ProviderKind)>) -> Seq<(Seq<char>, ProviderKind)> {
    Seq::new(s.len(), |i: int| (s[i].0@, s[i].1))
}

/// The entries of known type with their implementations.
pub open spec fn known_providers(s: Seq<(String, ProviderConfig)>) -> Seq<(Seq<char>, ProviderKind)>
    decreases s.len(),
{
    if s.len() == 0 {
        Seq::empty()
    } else {
        known_providers(s.drop_last()) + match provider_kind(s.last().1.provider_type@) {
            Some(k) => seq![(s.last().0@, k)],
            None => Seq::empty(),
        }
    }
}

/// Creating all providers keeps exactly the entries whose creation succeeds: a name and an
/// implementation are in the result if and only if some entry of that name has a type that
/// names that implementation.
pub proof fn create_all_keeps_exactly_the_created(s: Seq<(String, ProviderConfig)>)
    ensures
        forall|name: Seq<char>, k: ProviderKind|
            known_providers(s).contains((name, k)) <==> exists|i: int|
                0 <= i < s.len() && #[trigger] s[i].0@ == name && provider_kind(s[i].1.provider_type@)
                    == Some(k),
    decreases s.len(),
{
    if s.len() > 0 {
        let t = s.drop_last();
        create_all_keeps_exactly_the_created(t);
        let last = s.last();
        let tail: Seq<(Seq<char>, ProviderKind)> = match provider_kind(last.1.provider_type@) {
            Some(k) => seq![(last.0@, k)],
            None => Seq::empty(),
        };
        assert(known_providers(s) == known_providers(t) + tail);
        assert forall|name: Seq<char>, k: ProviderKind|
            known_providers(s).contains((name, k)) <==> exists|i: int|
                0 <= i < s.len() && #[trigger] s[i].0@ == name && provider_kind(
                    s[i].1.provider_type@,
                ) == Some(k) by {
            if known_providers(s).contains((name, k)) {
                let j = choose|j: int|
                    0 <= j < known_providers(s).len() && known_providers(s)[j] == (name, k);
                if j < known_providers(t).len() {
                    assert(known_providers(t)[j] == (name, k));
                    assert(known_providers(t).contains((name, k)));
                    let i = choose|i: int|
                        0 <= i < t.len() && #[trigger] t[i].0@ == name && provider_kind(
                            t[i].1.provider_type@,
                        ) == Some(k);
                    assert(s[i] == t[i]);
                } else {
                    assert(s[s.len() - 1].0@ == name);
                }
            }
            if exists|i: int|
                0 <= i < s.len() && #[trigger] s[i].0@ == name && provider_kind(
                    s[i].1.provider_type@,
                ) == Some(k) {
                let i = choose|i: int|
                    0 <= i < s.len() && #[trigger] s[i].0@ == name && provider_kind(
                        s[i].1.provider_type@,
                    ) == Some(k);
                if i < t.len() {
                    assert(t[i] == s[i]);
                    assert(known_providers(t).contains((name, k)));
                    let j = choose|j: int|
                        0 <= j < known_providers(t).len() && known_providers(t)[j] == (name, k);
                    assert(known_providers(s)[j] == (name, k));
                } else {
                    assert(known_providers(s)[known_providers(t).len() as int] == (name, k));
                }
            }
        }
    }
}

/// The router to build, with its settings.
pub enum RouterPlan {
    /// Straight to the default provider, among the providers there are.
    Direct(DirectRouter),
    /// Through the OpenRouter gateway.
    OpenRouter { api_key: String, base_url: String, providers: Vec<String>, default_provider: String },
    /// To a local Ollama server.
    Ollama { base_url: String, model: String },
}

impl RouterPlan {
    /// The router's name: its routing mode.
    pub fn name(&self) -> (s: &'static str)
        ensures
            s@ == match *self {
                RouterPlan::Direct(_) => "direct"@,
                RouterPlan::OpenRouter { .. } => "openrouter"@,
                RouterPlan::Ollama { .. } => "ollama"@,
            },
    {
        match self {
            RouterPlan::Direct(_) => "direct",
            RouterPlan::OpenRouter { .. } => "openrouter",
            RouterPlan::Ollama { .. } => "ollama",
        }
    }
}

/// The router plan as plain values.
pub enum PlanModel {
    Direct(Seq<Seq<char>>, Seq<char>),
    OpenRouter(Seq<char>, Seq<char>, Seq<Seq<char>>, Seq<char>),
    Ollama(Seq<char>, Seq<char>),
    UnknownMode(Seq<char>),
    MissingKey,
    UnknownProvider(Seq<char>),
}

pub open spec fn plan_view(r: Result<RouterPlan, FactoryError>) -> PlanModel {
    match r {
        Ok(RouterPlan::Direct(d)) => PlanModel::Direct(strings_view(d.providers@), d.default_provider@),
        Ok(RouterPlan::OpenRouter { api_key, base_url, providers, default_provider }) => PlanModel::OpenRouter(
            api_key@,
            base_url@,
            strings_view(providers@),
            default_provider@,
        ),
        Ok(RouterPlan::Ollama { base_url, model }) => PlanModel::Ollama(base_url@, model@),
        Err(FactoryError::UnknownRoutingMode(m)) => PlanModel::UnknownMode(m@),
        Err(FactoryError::MissingOpenRouterKey) => PlanModel::MissingKey,
        Err(FactoryError::UnknownProvider(t)) => PlanModel::UnknownProvider(t@),
    }
}

pub open spec fn or_default(o: Option<String>, d: Seq<char>) -> Seq<char> {
    match o {
        Some(s) => s@,
        None => d,
    }
}

/// The router a configuration asks for over the providers there are: `direct`, `openrouter`
/// (which needs a key; the gateway defaults to `https://openrouter.ai/api`) or `ollama`
/// (defaulting to `http://localhost:11434` and `llama3`).
pub open spec fn router_plan(c: RouterConfig, providers: Seq<Seq<char>>, default_provider: Seq<char>) -> PlanModel {
    if c.mode@ == "direct"@ {
        PlanModel::Direct(providers, default_provider)
    } else if c.mode@ == "openrouter"@ {
        match c.openrouter_api_key {
            Some(k) => PlanModel::OpenRouter(
                k@,
                or_default(c.openrouter_base_url, "https://openrouter.ai/api"@),
                providers,
                default_provider,
            ),
            None => PlanModel::MissingKey,
        }
    } else if c.mode@ == "ollama"@ {
        PlanModel::Ollama(
            or_default(c.ollama_base_url, "http://localhost:11434"@),
            or_default(c.ollama_model, "llama3"@),
        )
    } else {
        PlanModel::UnknownMode(c.mode@)
    }
}

fn string_or(o: &Option<String>, d: &str) -> (s: String)
    ensures
        s@ == or_default(*o, d@),
{
    match o {
        Some(x) => x.clone(),
        None => d.to_string(),
    }
}

/// Chooses the routing layer.
pub struct LLM;

impl LLM {
    /// The router for a routing configuration over the named providers; an unknown mode, or
    /// OpenRouter without a key, is an error (see `FactoryError::message`).
    pub fn create(router_config: &RouterConfig, providers: Vec<String>, default_provider: &str) -> (r:
        Result<RouterPlan, FactoryError>)
        ensures
            plan_view(r) == router_plan(*router_config, strings_view(providers@), default_provider@),
    {
        let mode = router_config.mode.as_str();
        if str_eq(mode, "direct") {
            Ok(RouterPlan::Direct(DirectRouter::new(providers, default_provider)))
        } else if str_eq(mode, "openrouter") {
            match &router_config.openrouter_api_key {
                Some(k) => Ok(
                    RouterPlan::OpenRouter {
                        api_key: k.clone(),
                        base_url: string_or(
                            &router_config.openrouter_base_url,
                            "https://openrouter.ai/api",
                        ),
                        providers,
                        default_provider: default_provider.to_string(),
                    },
                ),
                None => Err(FactoryError::MissingOpenRouterKey),
            }
        } else if str_eq(mode, "ollama") {
            Ok(
                RouterPlan::Ollama {
                    base_url: string_or(&router_config.ollama_base_url, "http://localhost:11434"),
                    model: string_or(&router_config.ollama_model, "llama3"),
                },
            )
        } else {
            Err(FactoryError::UnknownRoutingMode(router_config.mode.clone()))
        }
    }
}

} // verus!

verus! {

/// Why a request cannot be routed.
#[derive(Debug, Clone)]
pub enum RouteError {
    /// The default provider is not among the providers; carries its name and the names that
    /// are there.
    DefaultProviderMissing { default_provider: String, available: Vec<String> },
}

/// Routes every request straight to the default provider.
pub struct DirectRouter {
    pub providers: Vec<String>,
    pub default_provider: String,
}

impl DirectRouter {
    pub fn new(providers: Vec<String>, default_provider: &str) -> (r: DirectRouter)
        ensures
            r.providers == providers,
            r.default_provider@ == default_provider@,
    {
        DirectRouter { providers, default_provider: default_provider.to_string() }
    }

    pub fn name(&self) -> (s: &'static str)
        ensures
            s@ == "direct"@,
    {
        "direct"
    }

    /// The provider a request goes to: the default one, when it is there.
    pub fn route_target(&self) -> (r: Result<usize, RouteError>)
        ensures
            match r {
                Ok(i) => i < self.providers@.len() && self.providers@[i as int]@ == self.default_provider@,
                Err(RouteError::DefaultProviderMissing { default_provider, available }) => default_provider@
                    == self.default_provider@ && available@ == self.providers@ && forall|i: int|
                    0 <= i < self.providers@.len() ==> (#[trigger] self.providers@[i])@
                        != self.default_provider@,
            },
    {
        let mut i: usize = 0;
        while i < self.providers.len()
            invariant
                i <= self.providers@.len(),
                forall|j: int| 0 <= j < i ==> (#[trigger] self.providers@[j])@ != self.default_provider@,
            decreases self.providers.len() - i,
        {
            if str_eq(self.providers[i].as_str(), self.default_provider.as_str()) {
                return Ok(i);
            }
            i = i + 1;
        }
        let mut available: Vec<String> = Vec::new();
        let mut k: usize = 0;
        while k < self.providers.len()
            invariant
                k <= self.providers@.len(),
                available@ == self.providers@.take(k as int),
            decreases self.providers.len() - k,
        {
            available.push(self.providers[k].clone());
            assert(available@ =~= self.providers@.take(k + 1));
            k = k + 1;
        }
        assert(available@ =~= self.providers@);
        Err(RouteError::DefaultProviderMissing { default_provider: self.default_provider.clone(), available })
    }

    /// The providers there are.
    pub fn available_providers(&self) -> (r: Vec<String>)
        ensures
            r@ == self.providers@,
    {
        let mut available: Vec<String> = Vec::new();
        let mut k: usize = 0;
        while k < self.providers.len()
            invariant
                k <= self.providers@.len(),
                available@ == self.providers@.take(k as int),
            decreases self.providers.len() - k,
        {
            available.push(self.providers[k].clone());
            assert(available@ =~= self.providers@.take(k + 1));
            k = k + 1;
        }
        assert(available@ =~= self.providers@);
        available
    }
}

} // verus!
