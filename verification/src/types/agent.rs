//! Agent session and response types.

use std::collections::HashMap;
use vstd::prelude::*;

verus! {

/// Session state.
#[derive(Debug, Clone, Copy, PartialEq, Eq, Structural)]
pub enum SessionState {
    Active,
    Waiting,
    Completed,
    Expired,
}

/// Intent type.
#[derive(Debug, Clone, Copy, PartialEq, Eq, Structural)]
pub enum IntentType {
    Query,
    Debug,
    Health,
    Logs,
    Metrics,
    Deploy,
    Scale,
    Unknown,
}

/// Intent entities extracted from a user message.
#[derive(Debug, Clone, Default)]
pub struct IntentEntities {
    pub namespace: Option<String>,
    pub pod_name: Option<String>,
    pub deployment_name: Option<String>,
    pub service_name: Option<String>,
    pub cluster: Option<String>,
    pub time_range: Option<String>,
    pub query: Option<String>,
    pub labels: HashMap<String, String>,
}

/// Outgoing message content.
#[derive(Debug, Clone)]
pub struct OutgoingMessage {
    pub content: String,
    pub format: OutputFormat,
    pub code_block: Option<CodeBlockInfo>,
    pub table: Option<TableInfo>,
}

/// Output format.
#[derive(Debug, Clone, Copy, PartialEq, Eq, Structural)]
pub enum OutputFormat {
    Plain,
    Markdown,
    Json,
}

/// Code block info.
#[derive(Debug, Clone)]
pub struct CodeBlockInfo {
    pub language: Option<String>,
    pub content: String,
}

/// Table info.
#[derive(Debug, Clone)]
pub struct TableInfo {
    pub headers: Vec<String>,
    pub rows: Vec<Vec<String>>,
}

} // verus!
