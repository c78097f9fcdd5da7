use aiclaw::agent::context::{apply_summary, ChatMessage, CompactionRoute, ContextManager, MessageRole};
use aiclaw::agent::intent::IntentParser;
use aiclaw::agent::memory::{BuiltinMemoryProvider, MemoryManager};
use aiclaw::agent::output_budget::{
    apply_budget_to_outputs, char_prefix, char_suffix, head_tail_truncate, needs_spill,
    truncate_tool_output, OutputBudget,
};
use aiclaw::agent::planner::extract_json;
use aiclaw::agent::prompt_builder::{truncate_skill_content, PromptBuilder};
use aiclaw::agent::router::{rank_routes, RouteResult};
use aiclaw::agent::session::SessionManager;
use aiclaw::agent::task::{DiagnosticTask, TaskRun, TaskRunner};
use aiclaw::types::agent::{IntentType, SessionState};
use aiclaw::types::memory::{MemoryProvider, ToolSchema};
use aiclaw::types::skill::SkillMetadata;
use std::sync::Arc;
use std::time::Duration;

fn make_messages(n: usize) -> Vec<ChatMessage> {
    let mut msgs = vec![ChatMessage::system("You are a helpful assistant.")];
    for i in 0..n {
        if i % 2 == 0 {
            msgs.push(ChatMessage::user(&format!("Question {}", i)));
        } else {
            msgs.push(ChatMessage::assistant(&format!("Answer {}", i)));
        }
    }
    msgs
}

fn assert_send_sync<T: Send + Sync>() {}

#[test]
fn estimate_tokens_roughly_correct() {
    let msgs = vec![ChatMessage::user("hello world")];
    let est = ContextManager::estimate_tokens(&msgs);
    assert_eq!(est, 2);
}

#[test]
fn small_context_fits() {
    let msgs = make_messages(4);
    let cm = ContextManager::new();
    assert_eq!(cm.preemptive_check(&msgs), CompactionRoute::Fits);
}

#[test]
fn large_context_triggers_compaction() {
    let mut msgs = vec![ChatMessage::system("sys")];
    for _ in 0..200 {
        msgs.push(ChatMessage::user(&"x".repeat(3000)));
    }
    let cm = ContextManager::new().with_max_tokens(1000);
    assert_ne!(cm.preemptive_check(&msgs), CompactionRoute::Fits);
}

#[test]
fn route_escalates_with_estimate() {
    let cm = ContextManager::new().with_max_tokens(100);
    // 300 bytes -> 75 tokens: fits (threshold 75)
    let fits = vec![ChatMessage::user(&"a".repeat(300))];
    // 304 bytes -> 76 tokens: compact only
    let compact = vec![ChatMessage::user(&"a".repeat(304))];
    // 404 bytes -> 101 tokens: compact and truncate
    let truncate = vec![ChatMessage::user(&"a".repeat(404))];
    assert_eq!(cm.preemptive_check(&fits), CompactionRoute::Fits);
    assert_eq!(cm.preemptive_check(&compact), CompactionRoute::CompactOnly);
    assert_eq!(cm.preemptive_check(&truncate), CompactionRoute::CompactAndTruncateTools);
}

#[test]
fn compaction_window_spares_prompt_and_recent() {
    let mut msgs = vec![ChatMessage::system("sys")];
    for _ in 0..10 {
        msgs.push(ChatMessage::user(&"x".repeat(400)));
    }
    let cm = ContextManager::new().with_max_tokens(100);
    assert_eq!(cm.compaction_window(&msgs), Some((1, 5)));
    apply_summary(&mut msgs, 1, 5, "earlier talk");
    assert_eq!(msgs.len(), 8);
    assert_eq!(msgs[0].content, "sys");
    assert_eq!(msgs[1].role, MessageRole::System);
    assert_eq!(msgs[1].content, "<context_summary>\nearlier talk\n</context_summary>");
}

#[test]
fn test_builtin_memory_provider_name() {
    let provider = BuiltinMemoryProvider::new();
    assert_eq!(provider.name(), "builtin");
}

#[test]
fn test_builtin_memory_provider_is_available() {
    let provider = BuiltinMemoryProvider::new();
    assert!(provider.is_available());
}

#[test]
fn test_builtin_memory_provider_no_tools() {
    let provider = BuiltinMemoryProvider::new();
    assert!(provider.get_tool_schemas().is_empty());
}

#[test]
fn test_builtin_memory_provider_system_prompt_empty_when_no_files() {
    let provider = BuiltinMemoryProvider::new();
    let block = provider.system_prompt_block();
    assert_eq!(block, "");
}

fn object_type_schema() -> serde_json::Value {
    let mut map = serde_json::Map::new();
    map.insert("type".to_string(), serde_json::Value::String("object".to_string()));
    serde_json::Value::Object(map)
}

#[test]
fn test_tool_schema_debug() {
    let schema = ToolSchema {
        name: "test_tool".to_string(),
        description: "A test tool".to_string(),
        parameters: object_type_schema(),
    };
    let debug = format!("{:?}", schema);
    assert!(debug.contains("test_tool"));
}

#[test]
fn test_tool_schema_clone() {
    let schema = ToolSchema {
        name: "test_tool".to_string(),
        description: "A test tool".to_string(),
        parameters: object_type_schema(),
    };
    let cloned = schema.clone();
    assert_eq!(cloned.name, schema.name);
    assert_eq!(cloned.description, schema.description);
}

#[test]
fn test_memory_provider_trait_object() {
    let provider: Arc<dyn MemoryProvider> = Arc::new(BuiltinMemoryProvider::new());
    assert_eq!(provider.name(), "builtin");
    assert!(provider.is_available());
    assert!(provider.get_tool_schemas().is_empty());
}

#[test]
fn test_memory_provider_trait_send_sync() {
    assert_send_sync::<BuiltinMemoryProvider>();
}

#[test]
fn memory_provider_default_tool_call_is_an_error_object() {
    let provider = BuiltinMemoryProvider::new();
    let reply = provider.handle_tool_call("fact_store", &object_type_schema());
    assert_eq!(reply, "{\"error\":\"builtin does not implement tool calls\"}");
}

#[test]
fn small_output_passes_through() {
    let budget = OutputBudget::default_budget("/tmp");
    let result = truncate_tool_output("hello", &budget, None);
    assert!(!result.was_truncated);
    assert_eq!(result.content, "hello");
}

#[test]
fn medium_output_is_head_tail_truncated() {
    let budget = OutputBudget {
        max_single_result_chars: 100,
        max_total_chars: 400,
        temp_dir: "/tmp".to_string(),
    };
    let long_str: String = "x".repeat(500);
    let result = truncate_tool_output(&long_str, &budget, None);
    assert!(result.was_truncated);
    assert!(result.content.contains("truncated"));
    assert!(result.content.len() < long_str.len());
}

#[test]
fn head_tail_preserves_boundaries() {
    let input = "ABCDE12345";
    let truncated = head_tail_truncate(input, 200);
    assert_eq!(truncated, input);
}

#[test]
fn head_tail_respects_limit() {
    let input: String = (0..300).map(|i| if i < 150 { 'a' } else { 'z' }).collect();
    let truncated = head_tail_truncate(&input, 100);
    assert!(truncated.chars().count() <= 100);
    assert!(truncated.starts_with("aaaaaaaaaaaaaaaaaa"));
    assert!(truncated.ends_with("zzzzzzzzzzzzzzzzzzzzzzzzzzzzzzzzzzzzzzzzzz"));
    assert!(truncated.contains("[... truncated, 300 chars total ...]"));
}

#[test]
fn char_suffix_works_with_unicode() {
    let s = "你好世界hello";
    let suffix = char_suffix(s, 5);
    assert_eq!(suffix, "hello");
}

#[test]
fn char_prefix_counts_characters() {
    assert_eq!(char_prefix("你好世界hello", 2), "你好");
    assert_eq!(char_prefix("abc", 10), "abc");
}

#[test]
fn apply_budget_reduces_aggregate() {
    let budget = OutputBudget {
        max_single_result_chars: 200,
        max_total_chars: 300,
        temp_dir: "/tmp".to_string(),
    };
    let mut outputs = vec![
        ("a".to_string(), "x".repeat(200), true),
        ("b".to_string(), "y".repeat(200), true),
    ];
    apply_budget_to_outputs(&mut outputs, &budget, &vec![None, None]);
    let total: usize = outputs.iter().map(|(_, c, _)| c.len()).sum();
    assert!(total <= 400);
}

#[test]
fn large_output_is_spilled_to_preview() {
    let budget = OutputBudget::default_budget("/tmp");
    let huge = "q".repeat(200_000);
    assert!(needs_spill(&huge, &budget));
    let result = truncate_tool_output(&huge, &budget, Some("/tmp/out.txt".to_string()));
    assert!(result.was_truncated);
    assert_eq!(result.saved_path, Some("/tmp/out.txt".to_string()));
    assert!(result.content.contains("Full output saved to: /tmp/out.txt"));
    assert!(result.content.contains("200000 chars total"));
}

#[test]
fn test_extract_json() {
    let json = r#"{"reasoning": "test", "steps": []}"#;
    assert!(extract_json(json).is_some());

    let wrapped = "```json\n{\"reasoning\": \"test\", \"steps\": []}\n```";
    assert!(extract_json(wrapped).is_some());
}

#[test]
fn extract_json_takes_first_balanced_object() {
    assert_eq!(
        extract_json("plan: {\"a\": {\"b\": 1}} trailing"),
        Some("{\"a\": {\"b\": 1}}".to_string())
    );
    assert_eq!(extract_json("no json here"), None);
}

#[test]
fn builds_planner_prompt_without_skills() {
    let builder = PromptBuilder::new();
    let prompt = builder.build_planner_prompt(&[], &[]);
    assert!(prompt.contains("AIClaw"));
    assert!(prompt.contains("diagnostic planning"));
    assert!(prompt.contains("command"));
}

#[test]
fn builds_planner_prompt_with_skills() {
    let mut skill = SkillMetadata::default();
    skill.name = "k8s-health".to_string();
    skill.description = "Check K8s cluster health".to_string();
    skill.raw_content = "# Steps\n1. kubectl get nodes\n2. kubectl get pods".to_string();
    let builder = PromptBuilder::new();
    let prompt = builder.build_planner_prompt(&[&skill], &[]);
    assert!(prompt.contains("k8s-health"));
    assert!(prompt.contains("kubectl get nodes"));
}

#[test]
fn truncates_large_skill_content() {
    let content = "x".repeat(5000);
    let truncated = truncate_skill_content(&content, 100);
    assert!(truncated.len() < 200);
    assert!(truncated.contains("truncated"));
}

#[test]
fn diagnostic_task_builds() {
    let task = DiagnosticTask {
        name: "check-pods".to_string(),
        description: "Check pod status".to_string(),
        commands: vec!["kubectl get pods".to_string()],
        timeout: Duration::from_secs(30),
    };
    assert_eq!(task.commands.len(), 1);
}

#[test]
fn task_steps_are_numbered_from_one() {
    let task = DiagnosticTask {
        name: "check-pods".to_string(),
        description: "Check pod status".to_string(),
        commands: vec!["kubectl get pods".to_string()],
        timeout: Duration::from_secs(30),
    };
    assert_eq!(TaskRunner::step_name("check-pods", 0), "check-pods_1");
    let tool = TaskRunner::step_tool(&task, 1, "kubectl get pods", 30);
    assert_eq!(tool.name, "check-pods_2");
    assert_eq!(tool.description, "Check pod status step 2");
    assert_eq!(tool.timeout_secs, Some(30));
}

#[test]
fn test_parse_log_intent() {
    let parser = IntentParser::new();
    let intent = parser.parse_by_rules("查看 pod nginx-123 的日志");
    assert_eq!(intent.intent_type, IntentType::Logs);
    // confidence is 0.5 plus 0.1 per keyword found
    assert!(intent.keyword_hits >= 1);
}

#[test]
fn test_parse_health_intent() {
    let parser = IntentParser::new();
    let intent = parser.parse_by_rules("检查集群健康状态");
    assert_eq!(intent.intent_type, IntentType::Health);
}

#[test]
fn test_parse_debug_intent() {
    let parser = IntentParser::new();
    let intent = parser.parse_by_rules("为什么我的 pod 启动失败了");
    assert_eq!(intent.intent_type, IntentType::Debug);
}

#[test]
fn unmatched_message_is_unknown_intent() {
    let parser = IntentParser::new();
    let intent = parser.parse_sync("good morning");
    assert_eq!(intent.intent_type, IntentType::Unknown);
    assert_eq!(intent.keyword_hits, 0);
    assert_eq!(intent.raw_query, "good morning");
}

#[test]
fn ranked_routes_are_top_three() {
    let rs = vec![
        RouteResult::skill("a", 40),
        RouteResult::skill("b", 90),
        RouteResult::mcp("vm", "query", 70),
        RouteResult::skill("c", 90),
        RouteResult::skill("d", 10),
    ];
    let top = rank_routes(&rs);
    assert_eq!(top.len(), 3);
    assert_eq!(top[0].skill_name, Some("b".to_string()));
    assert_eq!(top[1].skill_name, Some("c".to_string()));
    assert_eq!(top[2].mcp_server, Some("vm".to_string()));
    assert_eq!(top[2].confidence, 70);
}

#[test]
fn fresh_session_is_valid_and_found() {
    let mut mgr = SessionManager::new(60);
    let s = mgr.create_session("u1", "feishu", None, 1000);
    assert_eq!(s.id.len(), 36);
    assert_eq!(s.state, SessionState::Active);
    assert!(mgr.is_session_valid(&s, 1000));
    assert!(mgr.is_session_valid(&s, 1060));
    assert!(!mgr.is_session_valid(&s, 1061));
    let found = mgr.get(&s.id).unwrap();
    assert_eq!(found.user_id, "u1");
    assert_eq!(mgr.active_count(), 1);
}

#[test]
fn session_key_joins_parts() {
    let mgr = SessionManager::new(60);
    assert_eq!(mgr.session_key("u", "c", None), "u:c");
    assert_eq!(mgr.session_key("u", "c", Some("t")), "u:c:t");
}

#[test]
fn cleanup_removes_idle_sessions() {
    let mut mgr = SessionManager::new(60);
    let old = mgr.create_session("u1", "local", None, 0);
    let recent = mgr.create_session("u2", "local", None, 100);
    let removed = mgr.cleanup_expired(120);
    assert_eq!(removed, 1);
    assert!(mgr.get(&old.id).is_none());
    assert!(mgr.get(&recent.id).is_some());
    let touched = mgr.touch(&recent.id, 130).unwrap();
    assert_eq!(touched.last_activity, 130);
    let after = mgr.add_interaction(&recent.id, "Logs", Some("k8s-log-reader"), None, true, 140).unwrap();
    assert_eq!(after.context.history.len(), 1);
    assert_eq!(after.context.last_skill, Some("k8s-log-reader".to_string()));
}

#[test]
fn test_memory_manager_new() {
    let mm = MemoryManager::new();
    assert_eq!(mm.build_system_prompt(), "");
}

#[test]
fn test_memory_manager_no_external_provider() {
    let mm = MemoryManager::new();
    assert_eq!(mm.prefetch_all("test query"), String::new());
}

#[test]
fn test_memory_manager_has_tool_false() {
    let mm = MemoryManager::new();
    assert!(!mm.has_tool("nonexistent_tool"));
    assert!(!mm.has_tool("fact_store"));
    assert!(!mm.has_tool("brv_query"));
}

#[test]
fn test_memory_manager_unknown_tool_call() {
    let mm = MemoryManager::new();
    let result = mm.handle_tool_call("unknown", &serde_json::Value::Object(serde_json::Map::new()));
    assert!(result.contains("unknown memory tool"));
}

#[test]
fn test_memory_manager_get_all_tool_schemas_empty() {
    let mm = MemoryManager::new();
    assert!(mm.get_all_tool_schemas().is_empty());
}

#[test]
fn test_memory_manager_sync_noop() {
    let mm = MemoryManager::new();
    mm.sync_all("user message", "assistant response");
}

#[test]
fn test_memory_manager_queue_prefetch_noop() {
    let mm = MemoryManager::new();
    mm.queue_prefetch_all("next query");
}

#[test]
fn test_memory_manager_on_turn_start_noop() {
    let mm = MemoryManager::new();
    mm.on_turn_start(1, "test message");
}

#[test]
fn test_memory_manager_on_session_end_noop() {
    let mm = MemoryManager::new();
    mm.on_session_end(&[]);
}

#[test]
fn test_memory_manager_on_pre_compress_noop() {
    let mm = MemoryManager::new();
    let result = mm.on_pre_compress(&[("user".to_string(), "assistant".to_string())]);
    assert_eq!(result, String::new());
}

#[test]
fn test_memory_manager_shutdown_noop() {
    let mm = MemoryManager::new();
    mm.shutdown_all();
}

struct NotesProvider;

impl MemoryProvider for NotesProvider {
    fn name(&self) -> &str {
        "notes"
    }

    fn is_available(&self) -> bool {
        true
    }

    fn system_prompt_block(&self) -> String {
        "# Notes".to_string()
    }

    fn prefetch(&self, query: &str) -> String {
        format!("note about {}", query)
    }

    fn get_tool_schemas(&self) -> Vec<ToolSchema> {
        vec![ToolSchema {
            name: "note_add".to_string(),
            description: "Add a note".to_string(),
            parameters: object_type_schema(),
        }]
    }

    fn on_pre_compress(&self, messages: &[(String, String)]) -> String {
        format!("{} notes", messages.len())
    }

    fn handle_tool_call(&self, name: &str, _args: &serde_json::Value) -> String {
        format!("handled {}", name)
    }
}

#[test]
fn memory_manager_replacing_the_provider_replaces_its_tools() {
    let mm = MemoryManager::new().set_external(NotesProvider);
    assert!(mm.has_tool("note_add"));
    assert_eq!(mm.on_pre_compress(&[("u".to_string(), "a".to_string())]), "1 notes");
    let mm = mm.set_external(BuiltinMemoryProvider::new());
    assert!(!mm.has_tool("note_add"));
    assert!(mm.get_all_tool_schemas().is_empty());
    assert_eq!(
        mm.handle_tool_call("note_add", &object_type_schema()),
        "{\"error\":\"unknown memory tool: note_add\"}"
    );
}

#[test]
fn memory_manager_routes_to_external_provider() {
    let mm = MemoryManager::new().set_external(NotesProvider);
    assert_eq!(mm.build_system_prompt(), "\n\n# Notes");
    assert!(mm.has_tool("note_add"));
    assert_eq!(mm.handle_tool_call("note_add", &object_type_schema()), "handled note_add");
    assert_eq!(
        mm.handle_tool_call("other", &object_type_schema()),
        "{\"error\":\"unknown memory tool: other\"}"
    );
    assert_eq!(mm.get_all_tool_schemas().len(), 1);
    let recalled = mm.prefetch_all("pods");
    assert!(recalled.starts_with("<memory-context>\n"));
    assert!(recalled.contains("note about pods"));
    assert!(recalled.ends_with("\n</memory-context>"));
}

use aiclaw::agent::context::{summary_request_messages, SUMMARIZER_SYSTEM_PROMPT};
use aiclaw::agent::memory::{fact_command, FactCommand};
use aiclaw::json::parse_json;

#[test]
fn summary_request_wraps_history() {
    let msgs = summary_request_messages("[user]: hi");
    assert_eq!(msgs.len(), 2);
    assert_eq!(msgs[0].content, SUMMARIZER_SYSTEM_PROMPT);
    assert!(msgs[1].content.contains("Conversation:\n[user]: hi\n\nProvide a structured summary."));
}

#[test]
fn fact_store_calls_are_decoded() {
    let add = fact_command("fact_store", &parse_json("{\"action\":\"add\",\"content\":\"db is pg\",\"entity\":\"db\"}").unwrap());
    match add {
        FactCommand::Add { content, entity, category, tags } => {
            assert_eq!(content, "db is pg");
            assert_eq!(entity, Some("db".to_string()));
            assert_eq!(category, "general");
            assert_eq!(tags, "");
        }
        other => panic!("unexpected {:?}", other),
    }
    let search = fact_command("fact_store", &parse_json("{\"action\":\"search\",\"query\":\"say \\\"hi\\\"\",\"limit\":-3,\"min_trust\":0.25}").unwrap());
    match search {
        FactCommand::Search { phrase, limit, min_trust } => {
            assert_eq!(phrase, "\"say \"\"hi\"\"\"");
            assert_eq!(limit, -3);
            assert_eq!(min_trust, Some("0.25".to_string()));
        }
        other => panic!("unexpected {:?}", other),
    }
    assert!(matches!(fact_command("fact_store", &parse_json("{}").unwrap()), FactCommand::List { limit: 20 }));
    assert!(matches!(
        fact_command("fact_store", &parse_json("{\"action\":\"probe\",\"entity\":\"x\",\"limit\":1.5}").unwrap()),
        FactCommand::Probe { limit: 10, .. }
    ));
    assert!(matches!(fact_command("fact_store", &parse_json("{\"action\":\"drop\"}").unwrap()), FactCommand::UnknownAction(ref a) if a == "drop"));
    assert!(matches!(
        fact_command("fact_feedback", &parse_json("{\"action\":\"helpful\",\"fact_id\":7}").unwrap()),
        FactCommand::Feedback { helpful: true, fact_id: 7, .. }
    ));
    assert!(matches!(fact_command("brv_query", &parse_json("{}").unwrap()), FactCommand::UnknownTool(ref n) if n == "brv_query"));
}

use aiclaw::agent::memory::{fact_reply, tool_reply, BrvCall, ByteRoverMemoryProvider};
use aiclaw::json::to_json_string;

#[test]
fn byterover_calls_from_arguments() {
    let args = parse_json("{\"content\":\"pods restart\"}").unwrap();
    match ByteRoverMemoryProvider::tool_call_from_args("brv_curate", &args) {
        BrvCall::Run(a) => assert_eq!(a, vec!["curate", "--type", "fact", "pods restart"]),
        other => panic!("unexpected {:?}", other),
    }
    match ByteRoverMemoryProvider::tool_call_from_args("brv_query", &parse_json("{}").unwrap()) {
        BrvCall::Run(a) => assert_eq!(a, vec!["query", ""]),
        other => panic!("unexpected {:?}", other),
    }
    assert!(matches!(
        ByteRoverMemoryProvider::tool_call_from_args("nope", &args),
        BrvCall::Unknown(ref n) if n == "nope"
    ));
    assert_eq!(
        ByteRoverMemoryProvider::sync_args("hi", "hello"),
        vec!["curate", "--type", "conversation", "user: hi | assistant: hello"]
    );
}

#[test]
fn memory_tool_replies() {
    assert_eq!(to_json_string(&tool_reply(Ok("3 facts".to_string()))), "{\"result\":\"3 facts\"}");
    assert_eq!(to_json_string(&tool_reply(Err("boom".to_string()))), "{\"error\":\"boom\"}");
    let add = fact_command("fact_store", &parse_json("{\"action\":\"add\"}").unwrap());
    assert_eq!(to_json_string(&fact_reply(&add).unwrap()), "{\"result\":\"fact added\"}");
    let fb = fact_command("fact_feedback", &parse_json("{\"action\":\"unhelpful\"}").unwrap());
    assert_eq!(
        to_json_string(&fact_reply(&fb).unwrap()),
        "{\"result\":\"feedback recorded: unhelpful\"}"
    );
    let list = fact_command("fact_store", &parse_json("{\"action\":\"list\"}").unwrap());
    assert!(fact_reply(&list).is_none());
    let unknown = fact_command("fact_forget", &parse_json("{}").unwrap());
    assert_eq!(to_json_string(&fact_reply(&unknown).unwrap()), "{\"error\":\"unknown tool: fact_forget\"}");
}

#[test]
fn diagnostic_task_clone_keeps_timeout() {
    let task = DiagnosticTask {
        name: "t".to_string(),
        description: "d".to_string(),
        commands: vec![],
        timeout: Duration::from_millis(1500),
    };
    assert_eq!(task.clone().timeout, Duration::from_millis(1500));
}

use aiclaw::agent::router::{DefaultSkillRegistryAccess, Router, SkillRegistryAccess};
use aiclaw::llm::traits::IntentEntities;
use std::cell::RefCell;

#[test]
fn default_skill_registry_has_no_skills() {
    let registry = DefaultSkillRegistryAccess;
    assert!(registry.search("disk full").is_empty());
    assert!(registry.get_by_tag("linux").is_empty());
    assert!(registry.get_by_domain_tag("storage").is_empty());
    assert!(registry.get_always().is_empty());
}

#[test]
fn medium_output_within_cap_is_kept_whole_and_flagged() {
    let budget = OutputBudget {
        max_single_result_chars: 20000,
        max_total_chars: 40000,
        temp_dir: "/tmp".to_string(),
    };
    let raw = "x".repeat(18000);
    let r = truncate_tool_output(&raw, &budget, None);
    assert_eq!(r.content, raw);
    assert!(r.was_truncated);
    assert!(r.saved_path.is_none());
    let small = "x".repeat(16384);
    assert!(!truncate_tool_output(&small, &budget, None).was_truncated);
}

#[test]
fn apply_budget_keeps_aggregate_within_total_even_for_tiny_shares() {
    let budget = OutputBudget {
        max_single_result_chars: 200,
        max_total_chars: 60,
        temp_dir: "/tmp".to_string(),
    };
    let mut outputs = vec![
        ("a".to_string(), "x".repeat(200), true),
        ("b".to_string(), "y".repeat(200), true),
    ];
    apply_budget_to_outputs(&mut outputs, &budget, &vec![None, None]);
    let total: usize = outputs.iter().map(|(_, c, _)| c.len()).sum();
    assert!(total <= 60);
    assert_eq!(outputs[0].0, "a");
    assert_eq!(outputs[1].0, "b");
    assert!(outputs[0].2 && outputs[1].2);
    assert_eq!(outputs[0].1, "x".repeat(30));
}

#[test]
fn every_advertised_fact_store_action_is_handled() {
    for action in ["add", "search", "probe", "related", "reason", "contradict", "update", "remove", "list"] {
        let args = parse_json(&format!(
            "{{\"action\":\"{}\",\"fact_id\":1,\"entity\":\"e\"}}",
            action
        ))
        .unwrap();
        let c = fact_command("fact_store", &args);
        assert!(!matches!(c, FactCommand::UnknownAction(_)), "{}", action);
        if let Some(reply) = fact_reply(&c) {
            assert!(!to_json_string(&reply).contains("unknown action"));
        }
    }
    let reason = fact_command(
        "fact_store",
        &parse_json("{\"action\":\"reason\",\"entities\":[\"db\",3,\"api\"]}").unwrap(),
    );
    assert!(matches!(reason, FactCommand::Reason { ref entities, limit: 10 } if entities == &vec!["db".to_string(), "api".to_string()]));
    let update = fact_command(
        "fact_store",
        &parse_json("{\"action\":\"update\",\"fact_id\":4,\"content\":\"new\",\"trust_delta\":0.1}").unwrap(),
    );
    assert!(matches!(update, FactCommand::Update { fact_id: 4, ref content, category: None, tags: None, ref trust_delta }
        if content.as_deref() == Some("new") && trust_delta.as_deref() == Some("0.1")));
    assert_eq!(to_json_string(&fact_reply(&update).unwrap()), "{\"result\":\"fact updated\"}");
    let remove = fact_command("fact_store", &parse_json("{\"action\":\"remove\",\"fact_id\":4}").unwrap());
    assert!(matches!(remove, FactCommand::Remove { fact_id: 4 }));
    assert_eq!(to_json_string(&fact_reply(&remove).unwrap()), "{\"result\":\"fact removed\"}");
}

#[test]
fn get_or_create_reuses_a_valid_session_of_the_same_conversation() {
    let mut m = SessionManager::new(3600);
    let s1 = m.get_or_create("u", "c", None, 1000);
    let s2 = m.get_or_create("u", "c", None, 1000);
    assert_eq!(s2.id, s1.id);
    assert_eq!(m.active_count(), 1);
    let other = m.get_or_create("u", "c", Some("t"), 1000);
    assert_ne!(other.id, s1.id);
    assert_eq!(m.active_count(), 2);
    let later = m.get_or_create("u", "c", None, 1000 + 3601);
    assert_ne!(later.id, s1.id);
}

use aiclaw::agent::context::{chosen_summary, simple_truncate_summary};
use aiclaw::agent::memory::{rows_reply, FactRow};

#[test]
fn task_result_collects_the_steps() {
    let task = DiagnosticTask {
        name: "check-pods".to_string(),
        description: "Check pod status".to_string(),
        commands: vec!["kubectl get pods".to_string(), "kubectl get nodes".to_string()],
        timeout: Duration::from_secs(30),
    };
    let runner = TaskRunner::new(OutputBudget::default_budget("/tmp"));
    let r = runner.task_result(
        &task,
        &vec![("pod-a Running".to_string(), true, None), ("Error: boom".to_string(), false, None)],
    );
    assert_eq!(r.task_name, "check-pods");
    assert_eq!(r.tool_outputs.len(), 2);
    assert_eq!(r.tool_outputs[0].tool_name, "check-pods_1");
    assert_eq!(r.tool_outputs[0].content, "pod-a Running");
    assert!(r.tool_outputs[0].success);
    assert_eq!(r.tool_outputs[1].tool_name, "check-pods_2");
    assert!(!r.success);
    let one = runner.task_result(&task, &vec![("ok".to_string(), true, None)]);
    assert!(one.success);
}

#[test]
fn failed_summary_request_falls_back_to_truncation() {
    assert_eq!(chosen_summary(Ok("short summary".to_string()), "history"), "short summary");
    let long = "h".repeat(3000);
    assert_eq!(chosen_summary(Err("timeout".to_string()), &long), simple_truncate_summary(&long));
    assert!(chosen_summary(Err("timeout".to_string()), &long).ends_with("[Earlier conversation truncated due to context limits]"));
}

#[test]
fn session_ids_are_v4_uuids() {
    let mut m = SessionManager::new(60);
    let s = m.create_session("u", "c", None, 5);
    let id: Vec<char> = s.id.chars().collect();
    assert_eq!(id.len(), 36);
    for (i, c) in id.iter().enumerate() {
        if [8, 13, 18, 23].contains(&i) {
            assert_eq!(*c, '-');
        } else {
            assert!(c.is_ascii_hexdigit() && !c.is_ascii_uppercase());
        }
    }
    assert_eq!(id[14], '4');
    assert!(['8', '9', 'a', 'b'].contains(&id[19]));
}

#[test]
fn holographic_rows_are_shaped_per_query() {
    let row = FactRow {
        id: -3,
        entity: Some("db".to_string()),
        content: "db is pg".to_string(),
        trust: "0.5".to_string(),
        category: "general".to_string(),
        tags: None,
    };
    let search = fact_command("fact_store", &parse_json("{\"action\":\"search\",\"query\":\"db\"}").unwrap());
    assert_eq!(
        to_json_string(&rows_reply(&search, &vec![row.clone()]).unwrap()),
        "{\"results\":[{\"content\":\"db is pg\",\"entity\":\"db\",\"id\":-3,\"tags\":null,\"trust\":0.5}]}"
    );
    let probe = fact_command("fact_store", &parse_json("{\"action\":\"probe\",\"entity\":\"db\"}").unwrap());
    assert_eq!(
        to_json_string(&rows_reply(&probe, &vec![row.clone()]).unwrap()),
        "{\"facts\":[{\"category\":\"general\",\"content\":\"db is pg\",\"id\":-3,\"trust\":0.5}]}"
    );
    let list = fact_command("fact_store", &parse_json("{}").unwrap());
    assert_eq!(to_json_string(&rows_reply(&list, &vec![]).unwrap()), "{\"facts\":[]}");
    let add = fact_command("fact_store", &parse_json("{\"action\":\"add\"}").unwrap());
    assert!(rows_reply(&add, &vec![row]).is_none());
}

struct RecordingRegistry {
    asked: RefCell<Vec<String>>,
}

impl SkillRegistryAccess for RecordingRegistry {
    fn search(&self, query: &str) -> Vec<SkillMetadata> {
        self.asked.borrow_mut().push(format!("search:{query}"));
        vec![]
    }

    fn get_by_tag(&self, tag: &str) -> Vec<SkillMetadata> {
        self.asked.borrow_mut().push(format!("tag:{tag}"));
        vec![]
    }

    fn get_by_domain_tag(&self, domain_tag: &str) -> Vec<SkillMetadata> {
        self.asked.borrow_mut().push(format!("domain:{domain_tag}"));
        vec![]
    }

    fn get_always(&self) -> Vec<SkillMetadata> {
        self.asked.borrow_mut().push("always".to_string());
        let mut skill = SkillMetadata::default();
        skill.name = "log-reader".to_string();
        vec![skill]
    }
}

#[test]
fn router_asks_the_registry_with_the_built_query() {
    let router = Router::new(RecordingRegistry { asked: RefCell::new(vec![]) });
    let routes = router.route(IntentType::Logs, "show pod logs", &IntentEntities::new());
    assert_eq!(
        *router.skill_registry.asked.borrow(),
        vec!["search:Logs show pod logs".to_string(), "tag:logs".to_string(), "always".to_string()]
    );
    assert!(routes.iter().any(|r| r.skill_name.as_deref() == Some("log-reader")));
    assert!(routes.iter().any(|r| r.tool_name.as_deref() == Some("victorialogs_query")));
}

#[test]
fn task_run_gives_each_step_the_task_timeout_once() {
    let task = DiagnosticTask {
        name: "check-pods".to_string(),
        description: "Check pod status".to_string(),
        commands: vec!["kubectl get pods".to_string()],
        timeout: Duration::from_secs(30),
    };
    let mut run = TaskRun::start(&task);
    let tool = run.next_tool().unwrap();
    assert_eq!(tool.name, "check-pods_1");
    assert_eq!(tool.description, "Check pod status step 1");
    assert_eq!(tool.command, "kubectl get pods");
    assert_eq!(tool.timeout_secs, Some(30));
    run.step_done("pod-a Running".to_string(), true, None);
    assert!(run.next_tool().is_none());
    let r = run.finish(&TaskRunner::new(OutputBudget::default_budget("/tmp")));
    assert_eq!(r.task_name, "check-pods");
    assert_eq!(r.tool_outputs.len(), 1);
    assert_eq!(r.tool_outputs[0].tool_name, "check-pods_1");
    assert_eq!(r.tool_outputs[0].content, "pod-a Running");
    assert!(r.success && r.tool_outputs[0].success);
}
