//! Chat channels: the decisions behind streaming replies and channel messages.

pub mod feishu;
pub mod local;
pub mod streaming_buffer;
pub mod wecom;
pub mod factory;
