use aiclaw::llm::traits::{IntentEntities, ParsedEntities};
use aiclaw::config::schema::{Config, LLMProviderConfig};
use aiclaw::llm::bootstrap::{default_chat_provider, env_var_name, parse_env_var, BootstrapError};
use aiclaw::llm::classifier::{ClassifyError, Confidence, IntentClassifierImpl};
use aiclaw::llm::factory::{
    DirectRouter, FactoryError, LLMProviderFactory, ProviderConfig, ProviderKind, LLM,
    RouteError, RouterConfig, RouterPlan,
};
use aiclaw::llm::sse::{iter_sse_lines, parse_anthropic_sse_event, parse_openai_sse_data};
use aiclaw::llm::types::ChatDelta;

#[test]
fn test_extract_json_from_response() {
    let json = r#"{"intent": "Debug", "confidence": 0.9}"#;
    assert!(IntentClassifierImpl::extract_json_from_response(json).is_some());

    let wrapped = r#"```json
{"intent": "Debug", "confidence": 0.9}
```"#;
    assert!(IntentClassifierImpl::extract_json_from_response(wrapped).is_some());

    let text = r#"Based on the query, the intent is:\n```json\n{"intent": "Debug", "confidence": 0.9}\n```"#;
    assert!(IntentClassifierImpl::extract_json_from_response(text).is_some());
}

#[test]
fn bare_object_answer_is_taken_whole() {
    let answer = "  {\"intent\": \"Logs\"}  \n";
    assert_eq!(
        IntentClassifierImpl::extract_json_from_response(answer),
        Some("{\"intent\": \"Logs\"}".to_string())
    );
}

#[test]
fn fenced_answer_is_unwrapped() {
    let answer = "Here:\n```json\n  {\"intent\": \"Health\"}\n```\nbye";
    assert_eq!(
        IntentClassifierImpl::extract_json_from_response(answer),
        Some("{\"intent\": \"Health\"}".to_string())
    );
}

#[test]
fn test_fallback_classify() {
    let result = IntentClassifierImpl::fallback_classify("查看 pod nginx 日志");
    assert_eq!(result.intent_type, "Logs");
    assert!(matches!(result.confidence, Confidence::Tenths(6)));

    let result = IntentClassifierImpl::fallback_classify("排查支付服务响应慢");
    assert_eq!(result.intent_type, "Debug");
    assert!(matches!(result.confidence, Confidence::Tenths(6)));
}

#[test]
fn fallback_without_keyword_is_unknown() {
    let result = IntentClassifierImpl::fallback_classify("hello there");
    assert_eq!(result.intent_type, "Unknown");
    assert!(matches!(result.confidence, Confidence::Tenths(3)));
}

#[test]
fn classify_reads_model_answer() {
    let c = IntentClassifierImpl::new();
    let r = c
        .classify("{\"intent\": \"Metrics\", \"confidence\": 0.8, \"entities\": {}, \"reasoning\": \"cpu\"}", "cpu usage")
        .unwrap();
    assert_eq!(r.intent_type, "Metrics");
    assert!(matches!(r.confidence, Confidence::Stated(ref s) if s == "0.8"));
    assert_eq!(r.reasoning, Some("cpu".to_string()));
}

#[test]
fn classify_without_json_falls_back_or_fails() {
    let with_fallback = IntentClassifierImpl::new();
    let r = with_fallback.classify("I cannot tell", "show me the logs").unwrap();
    assert_eq!(r.intent_type, "Logs");
    let strict = IntentClassifierImpl::new().with_fallback(false);
    assert!(matches!(strict.classify("I cannot tell", "show me the logs"), Err(ClassifyError::Unparsable)));
}

#[test]
fn provider_factory_knows_the_provider_types() {
    let c = ProviderConfig::new("deepseek", "k");
    assert_eq!(LLMProviderFactory::create("ds", &c), Ok(ProviderKind::DeepSeek));
    let bad = ProviderConfig::new("gemini", "k");
    assert_eq!(
        LLMProviderFactory::create("g", &bad),
        Err(FactoryError::UnknownProvider("gemini".to_string()))
    );
    let all = LLMProviderFactory::create_all(&vec![
        ("a".to_string(), ProviderConfig::new("openai", "k")),
        ("b".to_string(), bad),
        ("c".to_string(), ProviderConfig::new("qwen", "k")),
    ]);
    assert_eq!(all, vec![("a".to_string(), ProviderKind::OpenAI), ("c".to_string(), ProviderKind::Qwen)]);
}

#[test]
fn provider_config_builders_set_fields() {
    let c = ProviderConfig::new("openai", "key")
        .with_base_url("http://x")
        .with_model("m")
        .with_max_tokens(5)
        .with_timeout(7);
    assert_eq!(c.base_url, Some("http://x".to_string()));
    assert_eq!(c.model, "m");
    assert_eq!(c.max_tokens, 5);
    assert_eq!(c.timeout_secs, 7);
    assert_eq!(c.api_key, "key");
}

#[test]
fn router_factory_plans() {
    let providers = vec!["openai".to_string(), "qwen".to_string()];
    match LLM::create(&RouterConfig::new("direct"), providers.clone(), "openai") {
        Ok(plan) => {
            assert_eq!(plan.name(), "direct");
            match plan {
                RouterPlan::Direct(d) => {
                    assert_eq!(d.default_provider, "openai");
                    assert_eq!(d.available_providers(), providers);
                    assert_eq!(d.name(), "direct");
                }
                _ => panic!("expected a direct router"),
            }
        }
        Err(_) => panic!("expected a direct router"),
    }
    match LLM::create(&RouterConfig::new("openrouter").with_openrouter("k", None), providers.clone(), "openai") {
        Ok(RouterPlan::OpenRouter { api_key, base_url, providers: p, default_provider }) => {
            assert_eq!(api_key, "k");
            assert_eq!(base_url, "https://openrouter.ai/api");
            assert_eq!(p, providers);
            assert_eq!(default_provider, "openai");
        }
        _ => panic!("expected an OpenRouter router"),
    }
    match LLM::create(&RouterConfig::new("ollama"), vec![], "openai") {
        Ok(RouterPlan::Ollama { base_url, model }) => {
            assert_eq!(base_url, "http://localhost:11434");
            assert_eq!(model, "llama3");
        }
        _ => panic!("expected an Ollama router"),
    }
    match LLM::create(&RouterConfig::new("openrouter"), vec![], "openai") {
        Err(e) => {
            assert_eq!(e, FactoryError::MissingOpenRouterKey);
            assert_eq!(e.message(), "OpenRouter API key not provided");
        }
        Ok(_) => panic!("expected an error"),
    }
    match LLM::create(&RouterConfig::new("carrier-pigeon"), vec![], "openai") {
        Err(e) => assert_eq!(e.message(), "Unknown routing mode: carrier-pigeon"),
        Ok(_) => panic!("expected an error"),
    }
}

#[test]
fn unknown_provider_type_message() {
    let err = LLMProviderFactory::create("x", &ProviderConfig::new("foo", "k")).unwrap_err();
    assert_eq!(err.message(), "Unknown provider type: foo");
}

#[test]
fn direct_router_targets_default() {
    let r = DirectRouter::new(vec!["anthropic".to_string(), "openai".to_string()], "openai");
    assert_eq!(r.name(), "direct");
    assert_eq!(r.route_target().unwrap(), 1);
    assert_eq!(r.available_providers(), vec!["anthropic".to_string(), "openai".to_string()]);
    let missing = DirectRouter::new(vec!["anthropic".to_string()], "openai");
    match missing.route_target() {
        Err(RouteError::DefaultProviderMissing { default_provider, available }) => {
            assert_eq!(default_provider, "openai");
            assert_eq!(available, vec!["anthropic".to_string()]);
        }
        Ok(_) => panic!("expected an error"),
    }
}

#[test]
fn env_references_resolve() {
    let env = vec![("OPENAI_API_KEY".to_string(), "sk-123".to_string())];
    assert_eq!(env_var_name("${OPENAI_API_KEY}"), Some("OPENAI_API_KEY".to_string()));
    assert_eq!(env_var_name("plain"), None);
    assert_eq!(parse_env_var("${OPENAI_API_KEY}", &env), "sk-123");
}

#[test]
fn only_references_are_resolved() {
    let env = vec![("A".to_string(), "1".to_string())];
    assert_eq!(parse_env_var("A", &env), "A");
    assert_eq!(parse_env_var("${B}", &env), "${B}");
    assert_eq!(parse_env_var("${A", &env), "${A");
}

fn provider_entry(provider_type: &str, enabled: bool) -> LLMProviderConfig {
    LLMProviderConfig {
        enabled,
        provider_type: provider_type.to_string(),
        api_key: Some("${KEY}".to_string()),
        base_url: None,
        model: "m".to_string(),
        max_tokens: 100,
        timeout_secs: 10,
        retry_attempts: 1,
        extra_headers: vec![],
    }
}

#[test]
fn default_chat_provider_resolves_the_entry() {
    let env = vec![("KEY".to_string(), "secret".to_string())];
    let mut config = Config::default_with_skills_dir("/skills".to_string());
    config.llm.enabled = true;
    config.llm.default_provider = "main".to_string();
    config.llm.providers = vec![("main".to_string(), provider_entry("anthropic", true))];
    match default_chat_provider(&config, &env) {
        Ok(Some((c, k))) => {
            assert_eq!(k, ProviderKind::Anthropic);
            assert_eq!(c.api_key, "secret");
            assert_eq!(c.model, "m");
        }
        _ => panic!("expected a provider"),
    }

    config.llm.providers = vec![("main".to_string(), provider_entry("anthropic", false))];
    assert!(matches!(default_chat_provider(&config, &env), Ok(None)));

    config.llm.providers = vec![("main".to_string(), provider_entry("gemini", true))];
    assert!(matches!(
        default_chat_provider(&config, &env),
        Err(BootstrapError::Factory(FactoryError::UnknownProvider(ref t))) if t == "gemini"
    ));

    config.llm.providers = vec![];
    assert!(matches!(
        default_chat_provider(&config, &env),
        Err(BootstrapError::UndefinedDefaultProvider(ref n)) if n == "main"
    ));

    config.llm.enabled = false;
    assert!(matches!(default_chat_provider(&config, &env), Ok(None)));
}

#[test]
fn sse_lines_are_split_into_events() {
    let events = iter_sse_lines("event: message_start\ndata: {\"a\":1}\n\ndata: [DONE]\n");
    assert_eq!(events.len(), 2);
    assert_eq!(events[0].0, "message_start");
    assert_eq!(events[0].1, "{\"a\":1}");
    assert_eq!(events[1].1, "[DONE]");
}

#[test]
fn openai_stream_chunks_become_deltas() {
    assert!(parse_openai_sse_data("[DONE]").is_none());
    let deltas = parse_openai_sse_data(
        "{\"choices\":[{\"delta\":{\"content\":\"Hi\",\"reasoning_content\":\"hm\"}}]}",
    )
    .unwrap();
    assert_eq!(deltas.len(), 2);
    assert!(matches!(&deltas[0], ChatDelta::TextDelta(t) if t == "Hi"));
    assert!(matches!(&deltas[1], ChatDelta::ThinkingDelta(t) if t == "hm"));
    let usage = parse_openai_sse_data(
        "{\"usage\":{\"prompt_tokens\":3,\"completion_tokens\":4,\"total_tokens\":7},\"choices\":[]}",
    )
    .unwrap();
    assert!(matches!(&usage[0], ChatDelta::Done { usage } if usage.total_tokens == 7 && usage.prompt_tokens == 3));
    assert!(parse_openai_sse_data("not json").is_none());
    assert!(parse_openai_sse_data(" [DONE] ").is_none());
}

#[test]
fn anthropic_text_delta_becomes_text() {
    let deltas = parse_anthropic_sse_event(
        "content_block_delta",
        "{\"type\":\"content_block_delta\",\"index\":0,\"delta\":{\"type\":\"text_delta\",\"text\":\"Hello\"}}",
    )
    .unwrap();
    assert_eq!(deltas.len(), 1);
    assert!(matches!(&deltas[0], ChatDelta::TextDelta(t) if t == "Hello"));
}

use aiclaw::agent::context::{ChatMessage, MessageRole};
use aiclaw::json::{parse_json, to_json_string};
use aiclaw::llm::wire::{anthropic_reply, anthropic_request_body, anthropic_wire_messages, openai_reply, openai_request_body};

fn conversation() -> Vec<ChatMessage> {
    let mut tool = ChatMessage::new(MessageRole::Tool, "3 pods");
    tool.tool_call_id = Some("call_1".to_string());
    vec![
        ChatMessage::system("You are AIClaw."),
        ChatMessage::system("Be brief."),
        ChatMessage::user("how many pods?"),
        ChatMessage::assistant(""),
        tool,
        ChatMessage::assistant("There are 3."),
    ]
}

#[test]
fn openai_body_lists_every_message() {
    let body = openai_request_body("gpt-4o", &conversation()[2..3], 256, None, false);
    assert_eq!(
        to_json_string(&body),
        "{\"max_tokens\":256,\"messages\":[{\"content\":\"how many pods?\",\"role\":\"user\"}],\"model\":\"gpt-4o\",\"stream\":false,\"temperature\":0.7}"
    );
    let streamed = openai_request_body("m", &conversation()[4..5], 10, Some("0.1"), true);
    assert_eq!(
        to_json_string(&streamed),
        "{\"max_tokens\":10,\"messages\":[{\"content\":\"3 pods\",\"role\":\"tool\",\"tool_call_id\":\"call_1\"}],\"model\":\"m\",\"stream\":true,\"stream_options\":{\"include_usage\":true},\"temperature\":0.1}"
    );
}

#[test]
fn anthropic_body_separates_system_prompt() {
    let (system, messages) = anthropic_wire_messages(&conversation());
    assert_eq!(system, "You are AIClaw.\nBe brief.");
    assert_eq!(messages.len(), 4);
    assert_eq!(to_json_string(&messages[1]), "{\"content\":\"\",\"role\":\"assistant\"}");
    assert_eq!(
        to_json_string(&messages[2]),
        "{\"content\":[{\"content\":\"3 pods\",\"tool_use_id\":\"call_1\",\"type\":\"tool_result\"}],\"role\":\"user\"}"
    );
    assert_eq!(
        to_json_string(&messages[3]),
        "{\"content\":[{\"text\":\"There are 3.\",\"type\":\"text\"}],\"role\":\"assistant\"}"
    );
    let body = anthropic_request_body("model-x", &conversation()[..1], 5, None, true);
    assert_eq!(
        to_json_string(&body),
        "{\"max_tokens\":5,\"messages\":[],\"model\":\"model-x\",\"stream\":true,\"system\":\"You are AIClaw.\"}"
    );
}

#[test]
fn replies_are_read() {
    let raw = parse_json("{\"model\":\"gpt-4o-2024\",\"choices\":[{\"message\":{\"content\":\"hi\"}}],\"usage\":{\"prompt_tokens\":5,\"completion_tokens\":2,\"total_tokens\":7}}").unwrap();
    let r = openai_reply(&raw, "gpt-4o");
    assert_eq!(r.content, "hi");
    assert_eq!(r.model, "gpt-4o-2024");
    assert_eq!(r.usage.total_tokens, 7);
    let empty = openai_reply(&parse_json("{}").unwrap(), "gpt-4o");
    assert_eq!(empty.content, "");
    assert_eq!(empty.model, "gpt-4o");

    let a = anthropic_reply(
        &parse_json("{\"content\":[{\"type\":\"text\",\"text\":\"ok\"}],\"usage\":{\"input_tokens\":4,\"output_tokens\":6}}").unwrap(),
        "model-x",
    )
    .unwrap();
    assert_eq!(a.content, "ok");
    assert_eq!(a.model, "model-x");
    assert_eq!(a.usage.total_tokens, 10);
    let overflow = parse_json("{\"usage\":{\"input_tokens\":4294967295,\"output_tokens\":1}}").unwrap();
    assert!(anthropic_reply(&overflow, "model-x").is_none());
}

use aiclaw::llm::wire::{minimax_reply, ollama_reply, ollama_request_body, plain_chat_request_body};

#[test]
fn plain_and_ollama_bodies() {
    let msgs = vec![ChatMessage::user("hi")];
    assert_eq!(
        to_json_string(&plain_chat_request_body("abab", &msgs, 1024, None)),
        "{\"max_tokens\":1024,\"messages\":[{\"content\":\"hi\",\"role\":\"user\"}],\"model\":\"abab\",\"temperature\":0.7}"
    );
    assert_eq!(
        to_json_string(&ollama_request_body("llama3", &msgs, None, None)),
        "{\"messages\":[{\"content\":\"hi\",\"role\":\"user\"}],\"model\":\"llama3\",\"stream\":false}"
    );
    assert_eq!(
        to_json_string(&ollama_request_body("llama3", &msgs, Some(64), Some("0.2"))),
        "{\"messages\":[{\"content\":\"hi\",\"role\":\"user\"}],\"model\":\"llama3\",\"options\":{\"num_predict\":64},\"stream\":false,\"temperature\":0.2}"
    );
}

#[test]
fn minimax_and_ollama_replies() {
    let mm = minimax_reply(
        &parse_json("{\"choices\":[{\"messages\":[{\"text\":\"yo\"}]}],\"usage\":{\"total_tokens\":9}}").unwrap(),
        "abab",
    );
    assert_eq!(mm.content, "yo");
    assert_eq!(mm.model, "abab");
    assert_eq!(mm.usage.total_tokens, 9);
    let ol = ollama_reply(
        &parse_json("{\"model\":\"llama3:8b\",\"message\":{\"content\":\"pong\"},\"prompt_eval_count\":3,\"eval_count\":2}").unwrap(),
        "llama3",
    )
    .unwrap();
    assert_eq!(ol.content, "pong");
    assert_eq!(ol.model, "llama3:8b");
    assert_eq!(ol.usage.total_tokens, 5);
}

#[test]
fn fallback_reads_upper_case_keywords() {
    let result = IntentClassifierImpl::fallback_classify("Show me the LOGS of web-1");
    assert_eq!(result.intent_type, "Logs");
}

#[test]
fn parsed_entities_convert_field_by_field() {
    let mut p = ParsedEntities::default();
    p.pod_name = Some("web-1".to_string());
    p.error_keyword = Some("OOMKilled".to_string());
    let e: IntentEntities = p.into();
    assert_eq!(e.pod_name, Some("web-1".to_string()));
    assert_eq!(e.error_keyword, Some("OOMKilled".to_string()));
    assert_eq!(e.namespace, None);
}

#[test]
fn object_after_multibyte_text_is_extracted() {
    let content = "结果: {\"intent\": \"日志\"} 完毕";
    assert_eq!(
        IntentClassifierImpl::extract_json_from_response(content),
        Some("{\"intent\": \"日志\"}".to_string())
    );
}

use aiclaw::llm::classifier::classification_request;
use aiclaw::llm::traits::INTENT_CLASSIFICATION_PROMPT;

#[test]
fn classification_request_carries_the_prompt_and_the_message() {
    let msgs = classification_request("pod 一直 pending");
    assert_eq!(msgs.len(), 2);
    assert_eq!(msgs[0].role, MessageRole::System);
    assert_eq!(msgs[0].content, INTENT_CLASSIFICATION_PROMPT);
    assert!(INTENT_CLASSIFICATION_PROMPT.starts_with("你是一个运维助手"));
    assert!(INTENT_CLASSIFICATION_PROMPT.ends_with("直接返回 JSON 格式，不要有其他内容"));
    assert_eq!(msgs[1].role, MessageRole::User);
    assert_eq!(msgs[1].content, "pod 一直 pending");
}
