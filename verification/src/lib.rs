use vstd::prelude::*;

pub mod aiops;
pub mod text;
pub mod types;
pub mod agent;
pub mod llm;
pub mod config;
pub mod json;
pub mod keyed;
pub mod mcp;
pub mod patterns;
pub mod channels;
pub mod feedback;
pub mod kubernetes;
