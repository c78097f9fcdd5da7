//! Observability provider records.

use std::collections::HashMap;
use vstd::prelude::*;

verus! {

/// Stream statistics of a log query.
#[derive(Debug, Clone)]
pub struct StreamStats {
    pub lines_total: u64,
    pub bytes_total: u64,
    pub stream_type: String,
}

/// Observability provider configuration.
#[derive(Debug, Clone)]
pub struct AIOpsProviderConfig {
    pub name: String,
    pub provider_type: String,
    pub endpoint: String,
    pub timeout_secs: u64,
    pub retry_attempts: u32,
    pub headers: HashMap<String, String>,
}

} // verus!
