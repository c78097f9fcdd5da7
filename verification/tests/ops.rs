use aiclaw::agent::orchestrator::{
    all_outputs_succeeded, choose_dispatch, interpolate_skill_placeholders, is_followup_question,
    unknown_intent_reply, Dispatch,
};
use aiclaw::llm::summarizer::ToolOutput;
use aiclaw::types::agent::IntentType;
use aiclaw::aiops::{
    encode, endpoint_base, instant_query_url, logs_query_url, parse_instant_samples, parse_logs,
    parse_range_result, range_query_url, AIOpsError, AIOpsKind, AIOpsProviderFactory,
};
use aiclaw::config::schema::{
    AIOpsProviderConfig, ChannelConfig, ClusterConfig, Config, LocalChannelMode, LocalConfig,
};
use aiclaw::json::{parse_json, to_json_string, JsonValue};
use aiclaw::kubernetes::kubeconfig::{
    check_embedded_credentials, is_sensitive_path, sanitize_for_logging, validate_kubeconfig_path,
    KubeconfigPathError, PathFacts,
};
use aiclaw::mcp::{
    create_call_tool_request, create_error_response, create_list_tools_request,
    create_success_response, MCPError, RequestBuilder,
};

fn json(text: &str) -> JsonValue {
    parse_json(text).expect("valid JSON")
}

fn aiops_entry(t: &str, enabled: bool) -> AIOpsProviderConfig {
    AIOpsProviderConfig {
        enabled,
        provider_type: t.to_string(),
        endpoint: "http://vm:8428/".to_string(),
        timeout_secs: 30,
        retry_attempts: 3,
        headers: vec![],
    }
}

#[test]
fn aiops_factory_knows_backends() {
    assert_eq!(AIOpsProviderFactory::create("a", &aiops_entry("victoria", true)), Ok(AIOpsKind::VictoriaMetrics));
    assert_eq!(AIOpsProviderFactory::create("a", &aiops_entry("prometheus", true)), Ok(AIOpsKind::Prometheus));
    assert_eq!(
        AIOpsProviderFactory::create("a", &aiops_entry("datadog", true)),
        Err(AIOpsError::UnknownProvider("datadog".to_string()))
    );
    let all = AIOpsProviderFactory::create_all(&vec![
        ("off".to_string(), aiops_entry("datadog", false)),
        ("vm".to_string(), aiops_entry("victoriametrics", true)),
    ])
    .unwrap();
    assert_eq!(all, vec![("vm".to_string(), AIOpsKind::VictoriaMetrics)]);
}

#[test]
fn unreserved_text_is_not_escaped() {
    assert_eq!(encode("abc-XYZ_0.9~"), "abc-XYZ_0.9~");
    assert_eq!(encode("up{job=\"x\"}"), "up%7Bjob%3D%22x%22%7D");
    assert_eq!(encode("é"), "%C3%A9");
}

#[test]
fn query_urls_are_built() {
    let base = endpoint_base("http://vm:8428//");
    assert_eq!(base, "http://vm:8428");
    assert_eq!(instant_query_url(&base, "up", None), "http://vm:8428/api/v1/query?query=up");
    assert_eq!(
        range_query_url(&base, "up", 1000, 2000),
        "http://vm:8428/api/v1/query_range?query=up&start=1000&end=2000&step=10"
    );
    assert_eq!(
        range_query_url(&base, "up", 1000, 1050),
        "http://vm:8428/api/v1/query_range?query=up&start=1000&end=1050&step=1"
    );
    assert_eq!(
        logs_query_url(&base, "error", 50),
        "http://vm:8428/select/logsql/query?query=error&limit=50"
    );
}

#[test]
fn instant_samples_are_read() {
    let data = json(
        "{\"status\":\"success\",\"data\":{\"result\":[{\"metric\":{\"job\":\"a\"},\"value\":[1700000000,\"1.5\"]},{\"value\":[1]}]}}",
    );
    let samples = parse_instant_samples(&data, true).unwrap();
    assert_eq!(samples.len(), 1);
    assert_eq!(samples[0].timestamp, Some("1700000000".to_string()));
    assert_eq!(samples[0].value, Some("1.5".to_string()));
    assert_eq!(
        parse_instant_samples(&json("{\"data\":{}}"), true).unwrap_err(),
        AIOpsError::InvalidResponse
    );
}

#[test]
fn range_result_reads_name_and_labels() {
    let data = json(
        "{\"data\":{\"result\":[{\"metric\":{\"__name__\":\"up\",\"job\":\"a\"},\"values\":[[1,\"1\"],[2,\"0\"]]}]}}",
    );
    let r = parse_range_result(AIOpsKind::VictoriaMetrics, &data, "up").unwrap();
    assert_eq!(r.metric_name, "up");
    assert_eq!(r.samples.len(), 2);
    assert_eq!(r.labels, vec![("job".to_string(), "a".to_string())]);
}

#[test]
fn logs_are_read() {
    let data = json("[{\"_time\":\"2024-01-01T00:00:00Z\",\"_msg\":\"boom\",\"app\":\"x\"}]");
    let logs = parse_logs(&data).unwrap();
    assert_eq!(logs.len(), 1);
    assert_eq!(logs[0].message, "boom");
    assert_eq!(logs[0].time, Some("2024-01-01T00:00:00Z".to_string()));
    assert_eq!(parse_logs(&json("{}")).unwrap_err(), AIOpsError::InvalidResponse);
}

#[test]
fn sensitive_paths_are_recognised() {
    assert!(is_sensitive_path("/home/u/.aws/credentials"));
    assert!(is_sensitive_path("/home/u/.kube/config"));
    assert!(!is_sensitive_path("/etc/app/settings.yaml"));
}

#[test]
fn kubeconfig_path_checks() {
    let ok = PathFacts { exists: true, is_file: true, canonical: Ok("/k/config".to_string()) };
    assert_eq!(validate_kubeconfig_path(&ok, &vec![]), Ok(()));
    assert_eq!(validate_kubeconfig_path(&ok, &vec![Ok("/k/config".to_string())]), Ok(()));
    assert_eq!(
        validate_kubeconfig_path(&ok, &vec![Ok("/other".to_string())]),
        Err(KubeconfigPathError::NotAllowed)
    );
    assert_eq!(
        validate_kubeconfig_path(&ok, &vec![Err("gone".to_string())]),
        Err(KubeconfigPathError::CanonicalizeAllowed("gone".to_string()))
    );
    let missing = PathFacts { exists: false, is_file: false, canonical: Err("x".to_string()) };
    assert_eq!(validate_kubeconfig_path(&missing, &vec![]), Err(KubeconfigPathError::NotFound));
    let dir = PathFacts { exists: true, is_file: false, canonical: Ok("/k".to_string()) };
    assert_eq!(validate_kubeconfig_path(&dir, &vec![]), Err(KubeconfigPathError::NotAFile));
    let odd = PathFacts { exists: true, is_file: true, canonical: Err("loop".to_string()) };
    assert_eq!(
        validate_kubeconfig_path(&odd, &vec![]),
        Err(KubeconfigPathError::Canonicalize("loop".to_string()))
    );
}

#[test]
fn credentials_are_found_and_redacted() {
    let text = "users:\n- user:\n    token: abc\n    password: hunter2\n";
    assert_eq!(
        check_embedded_credentials(text),
        vec!["embedded password".to_string(), "embedded token".to_string()]
    );
    let clean = sanitize_for_logging(text);
    assert!(!clean.contains("token:"));
    assert!(!clean.contains("password:"));
    assert_eq!(clean, "users:\n- user:\n    [REDACTED]\n    [REDACTED]\n");
}

#[test]
fn sanitized_kubeconfig_holds_no_secret() {
    let s = sanitize_for_logging("password: hunter2\ntoken: abc123");
    assert!(!s.contains("hunter2"));
    assert!(!s.contains("abc123"));
    for key in ["password:", "token:", "client-secret:", "aws_access_key", "aws_secret_key"] {
        assert!(!s.contains(key));
    }
    assert_eq!(s, "[REDACTED]\n[REDACTED]");
}

#[test]
fn clean_kubeconfig_is_logged_unchanged() {
    let text = "clusters:\n- cluster:\n    server: https://k8s\n";
    assert!(check_embedded_credentials(text).is_empty());
    assert_eq!(sanitize_for_logging(text), text);
}

#[test]
fn mcp_requests_and_responses() {
    let req = create_list_tools_request();
    assert_eq!(req.jsonrpc, "2.0");
    assert_eq!(req.method, "tools/list");
    let call = create_call_tool_request("query", json("{\"q\":\"up\"}"));
    assert_eq!(call.method, "tools/call");
    assert_eq!(to_json_string(&call.id), "\"3\"");
    let built = RequestBuilder::new("ping").build();
    assert_eq!(to_json_string(&built.id), "1");
    let ok = create_success_response(json("7"), json("{\"x\":1}"));
    assert_eq!(to_json_string(&ok.id), "7");
    assert!(ok.error.is_none());
    let err = create_error_response(json("7"), -32601, "Method not found");
    let e = err.error.unwrap();
    assert_eq!(e.code, -32601);
    assert_eq!(e.message, "Method not found");
}

#[test]
fn mcp_error_messages() {
    assert_eq!(MCPError::Timeout.message(), "Timeout");
    assert_eq!(MCPError::ServerError("x".to_string()).message(), "Server error: x");
    assert_eq!(MCPError::ConnectionFailed("y".to_string()).message(), "Connection failed: y");
}

fn local(mode: LocalChannelMode, enabled: bool) -> ChannelConfig {
    ChannelConfig::Local(LocalConfig { enabled, mode, bind: "127.0.0.1".to_string(), port: 8080 })
}

#[test]
fn interactive_mode_is_default_without_remote_channels() {
    let mut c = Config::default_with_skills_dir("/s".to_string());
    assert!(c.is_interactive_default());
    c.channels = vec![("local".to_string(), local(LocalChannelMode::Stdio, true))];
    assert!(c.is_interactive_default());
    c.channels = vec![("local".to_string(), local(LocalChannelMode::Http, true))];
    assert!(!c.is_interactive_default());
    c.channels = vec![("local".to_string(), local(LocalChannelMode::Http, false))];
    assert!(c.is_interactive_default());
}

#[test]
fn config_file_wins_over_defaults() {
    let d = Config::load_or_default(None, "/skills".to_string()).unwrap();
    assert_eq!(d.skills.skills_dir, "/skills");
    assert_eq!(d.llm.default_provider, "anthropic");
    let e = Config::load_or_default(Some(Err("bad toml".to_string())), "/skills".to_string());
    assert_eq!(e.unwrap_err(), "bad toml");
}

#[test]
fn cluster_context_defaults_to_logical_name() {
    let named = ClusterConfig { enabled: true, context: Some("eks-prod".to_string()) };
    assert_eq!(named.kubectl_context_name("prod"), "eks-prod");
    let plain = ClusterConfig { enabled: true, context: None };
    assert_eq!(plain.kubectl_context_name("prod"), "prod");
}

#[test]
fn orchestrator_text_helpers() {
    assert!(is_followup_question("and the logs?"));
    assert!(!is_followup_question("please show me all the pods in kube-system"));
    assert_eq!(
        interpolate_skill_placeholders(
            "kubectl logs {{pod}} -n {{ns}}",
            &vec![("pod".to_string(), "web-1".to_string()), ("ns".to_string(), "prod".to_string())]
        ),
        "kubectl logs web-1 -n prod"
    );
    assert!(unknown_intent_reply("xyz").contains("xyz"));
}

#[test]
fn json_round_trip_through_library() {
    let v = json("{\"a\":[1,\"two\",null,true]}");
    assert_eq!(to_json_string(&v), "{\"a\":[1,\"two\",null,true]}");
    assert!(parse_json("{oops").is_none());
}

#[test]
fn no_config_file_gives_the_built_in_configuration() {
    let d = Config::load_or_default(None, "/skills".to_string()).unwrap();
    assert_eq!(d.agent.name, "aiclaw");
    assert_eq!(d.agent.session_timeout_secs, 3600);
    assert!(d.channels.is_empty() && d.aiops.is_empty() && d.clusters.is_empty());
    assert!(d.mcp.servers.is_empty());
    assert_eq!(d.logging.level, "info");
    assert_eq!(d.llm.routing.mode, "direct");
    assert_eq!(d.llm.routing.ollama.base_url, "http://localhost:11434");
    assert!(d.llm.providers.is_empty());
}

#[test]
fn encoding_uses_only_unreserved_characters_and_escapes() {
    let e = encode("a b/ü~");
    assert_eq!(e, "a%20b%2F%C3%BC~");
    assert!(e.chars().all(|c| c.is_ascii_alphanumeric() || "-_.~%".contains(c)));
}

#[test]
fn multi_cluster_query_without_known_clusters_runs_the_routes_once() {
    assert_eq!(choose_dispatch(IntentType::Health, true, false, true, true), Dispatch::MultiCluster);
    assert_eq!(choose_dispatch(IntentType::Health, true, false, true, false), Dispatch::Routes);
    assert_eq!(choose_dispatch(IntentType::Debug, true, false, true, true), Dispatch::Planner);
    assert_eq!(choose_dispatch(IntentType::Health, true, true, true, true), Dispatch::Unknown);
}

#[test]
fn plan_succeeds_only_when_every_step_does() {
    assert!(all_outputs_succeeded(&vec![]));
    let ok = ToolOutput::new("a", "x", true);
    let bad = ToolOutput::new("b", "y", false);
    assert!(all_outputs_succeeded(&vec![ok.clone()]));
    assert!(!all_outputs_succeeded(&vec![ok, bad]));
}
