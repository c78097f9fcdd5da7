//! Shared data types: skills, channels, agent messages, observability and Kubernetes records.

pub mod agent;
pub mod aiops;
pub mod channel;
pub mod kubernetes;
pub mod memory;
pub mod skill;
