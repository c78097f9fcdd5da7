# aiclaw

AIClaw is a chat-first AI Ops agent for Kubernetes and observability back ends. This crate is
its verified core, written in Verus: every function under `src/` carries a `requires`/`ensures`
contract that Verus proves.

## Layout

- `src/agent/` — context-window management and compaction, tool-output budgets, intent rules,
  routing, planning, prompts, sessions, memory providers and the orchestration decisions.
- `src/llm/` — provider and router selection, request bodies and replies of the provider
  APIs, server-sent event parsing, classification of model answers, summary prompts.
- `src/channels/` — streaming buffer, Feishu / WeCom / local channel messages and deliveries.
- `src/aiops/` — VictoriaMetrics / Prometheus query URLs and answer parsing.
- `src/mcp/` — JSON-RPC requests and responses for MCP servers.
- `src/config/`, `src/types/` — the configuration schema and shared data types.
- `src/kubernetes/` — kubeconfig path and content checks.
- `src/json.rs`, `src/text.rs`, `src/keyed.rs`, `src/patterns.rs` — the JSON tree, string
  operations with their specifications, keyed lists, and regular expressions.
- `app/` — the program: command line, configuration file, terminal and service loops, HTTP
  calls to model providers and chat services. It asks the library for the decisions the
  library makes (dispatch, follow-up context, budgets, summaries, plans). It runs only the
  stdio channel and has no skill or MCP executors, so questions routed to skills or MCP tools
  are put to the model directly.
- `tests/` — tests of the library through its public API.

Calls into `serde_json`, `regex` and `uuid`, and a few `std` functions (among them
`Duration::as_secs`), go through small
trusted wrappers whose contracts name what the outside code returns.
