//! The default chat provider an application configuration asks for, with `${NAME}` references
//! to environment variables resolved.

use crate::config::schema::{Config, LLMProviderConfig};
use crate::keyed::{find_first, first_lookup};
use crate::llm::factory::{provider_kind, FactoryError, LLMProviderFactory, ProviderConfig, ProviderKind};
use crate::text::{ends_with, slice_chars, starts_with, str_ends_with, str_starts_with, to_chars, from_chars};
use vstd::prelude::*;

verus! {

/// The variable a `${NAME}` reference names.
pub open spec fn env_reference(s: Seq<char>) -> Option<Seq<char>> {
    if starts_with(s, "${"@) && ends_with(s, "}"@) {
        Some(s.subrange(2, s.len() - 1))
    } else {
        None
    }
}

/// A configured value with a `${NAME}` reference replaced by the variable's value, when the
/// environment holds it.
pub open spec fn resolved(s: Seq<char>, env: Seq<(String, String)>) -> Seq<char> {
    match env_reference(s) {
        Some(name) => match first_lookup(env, name) {
            Some(v) => v@,
            None => s,
        },
        None => s,
    }
}

/// The variable name of a `${NAME}` reference.
pub fn env_var_name(s: &str) -> (r: Option<String>)
    ensures
        match r {
            Some(n) => env_reference(s@) == Some(n@),
            None => env_reference(s@) is None,
        },
{
    if str_starts_with(s, "${") && str_ends_with(s, "}") {
        proof {
            reveal_strlit("${");
            reveal_strlit("}");
        }
        let v = to_chars(s);
        assert(v@.len() >= 3) by {
            assert(v@.take(2)[1] == '{');
            assert(v@.skip(v@.len() - 1)[0] == '}');
            if v@.len() < 3 {
                assert(v@[1] == v@.take(2)[1]);
                assert(v@[1] == v@.skip(v@.len() - 1)[0]);
            }
        }
        let name = slice_chars(v.as_slice(), 2, v.len() - 1);
        Some(from_chars(name.as_slice()))
    } else {
        None
    }
}

/// Resolves a `${NAME}` reference against the environment (name and value pairs); anything
/// else, or a name the environment lacks, stays as written.
pub fn parse_env_var(s: &str, env: &Vec<(String, String)>) -> (r: String)
    ensures
        r@ == resolved(s@, env@),
{
    match env_var_name(s) {
        Some(name) => match find_first(env, name.as_str()) {
            Some(i) => env[i].1.clone(),
            None => s.to_string(),
        },
        None => s.to_string(),
    }
}

/// Why the default provider cannot be had.
#[derive(Debug, Clone)]
pub enum BootstrapError {
    /// `default_provider` names no entry under the providers; carries the name.
    UndefinedDefaultProvider(String),
    /// The entry's type is unknown.
    Factory(FactoryError),
}

/// The provider configuration an entry gives, with its key resolved (a missing key is empty).
pub open spec fn entry_config_ok(c: ProviderConfig, p: LLMProviderConfig, env: Seq<(String, String)>) -> bool {
    &&& c.provider_type == p.provider_type
    &&& c.api_key@ == (match p.api_key {
        Some(k) => resolved(k@, env),
        None => Seq::empty(),
    })
    &&& c.base_url == p.base_url
    &&& c.model == p.model
    &&& c.max_tokens == p.max_tokens
    &&& c.timeout_secs == p.timeout_secs
}

/// The default chat provider when the model layer and its default entry are enabled: the
/// entry's configuration and the implementation its type names.
pub fn default_chat_provider(config: &Config, env: &Vec<(String, String)>) -> (r: Result<
    Option<(ProviderConfig, ProviderKind)>,
    BootstrapError,
>)
    ensures
        !config.llm.enabled ==> r matches Ok(None),
        config.llm.enabled ==> match first_lookup(config.llm.providers@, config.llm.default_provider@) {
            None => r matches Err(BootstrapError::UndefinedDefaultProvider(n)) && n@
                == config.llm.default_provider@,
            Some(p) => if !p.enabled {
                r matches Ok(None)
            } else {
                match provider_kind(p.provider_type@) {
                    None => r matches Err(BootstrapError::Factory(FactoryError::UnknownProvider(t)))
                        && t@ == p.provider_type@,
                    Some(k) => r matches Ok(Some((c, k2))) && k2 == k && entry_config_ok(
                        c,
                        p,
                        env@,
                    ),
                }
            },
        },
{
    if !config.llm.enabled {
        return Ok(None);
    }
    let name = config.llm.default_provider.as_str();
    let i = match find_first(&config.llm.providers, name) {
        Some(i) => i,
        None => {
            return Err(BootstrapError::UndefinedDefaultProvider(name.to_string()));
        },
    };
    let p = &config.llm.providers[i].1;
    if !p.enabled {
        return Ok(None);
    }
    let api_key = match &p.api_key {
        Some(k) => parse_env_var(k.as_str(), env),
        None => String::new(),
    };
    let factory_cfg = ProviderConfig {
        provider_type: p.provider_type.clone(),
        api_key,
        base_url: crate::agent::context::copy_opt_string(&p.base_url),
        model: p.model.clone(),
        max_tokens: p.max_tokens,
        timeout_secs: p.timeout_secs,
    };
    match LLMProviderFactory::create(name, &factory_cfg) {
        Ok(k) => Ok(Some((factory_cfg, k))),
        Err(e) => Err(BootstrapError::Factory(e)),
    }
}

/// A configured value is replaced only by a variable it names: a value that is not a `${NAME}`
/// reference, or that names a variable the environment does not hold, is used as written.
pub proof fn only_references_are_resolved(s: Seq<char>, env: Seq<(String, String)>)
    ensures
        env_reference(s) is None ==> resolved(s, env) == s,
        env_reference(s) matches Some(name) && first_lookup(env, name) is None ==> resolved(s, env)
            == s,
{
}

} // verus!
