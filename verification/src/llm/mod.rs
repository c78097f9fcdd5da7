//! Model integration: intent entities, provider and routing configuration, prompts for
//! summarizing, server-sent event framing and JSON extraction from model answers.

pub mod bootstrap;
pub mod classifier;
pub mod factory;
pub mod sse;
pub mod summarizer;
pub mod traits;
pub mod types;
pub mod wire;
