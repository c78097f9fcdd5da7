//! Kubernetes records.

use std::collections::HashMap;
use vstd::prelude::*;

verus! {

/// Kubernetes resource identification.
#[derive(Debug, Clone)]
pub struct K8sResourceId {
    pub namespace: Option<String>,
    pub name: String,
    pub kind: String,
}

/// Pod status.
#[derive(Debug, Clone, Copy, PartialEq, Eq, Structural)]
pub enum PodStatus {
    Pending,
    Running,
    Succeeded,
    Failed,
    Unknown,
}

/// Container information.
#[derive(Debug, Clone)]
pub struct Container {
    pub name: String,
    pub image: String,
    pub ready: bool,
    pub restart_count: u32,
    pub state: ContainerState,
}

/// Container state.
#[derive(Debug, Clone)]
pub struct ContainerState {
    pub running: bool,
    pub waiting: bool,
    pub terminated: bool,
    pub message: Option<String>,
    pub reason: Option<String>,
}

/// Node status.
#[derive(Debug, Clone, Copy, PartialEq, Eq, Structural)]
pub enum NodeStatus {
    Ready,
    NotReady,
    Unknown,
}

/// Event type.
#[derive(Debug, Clone, Copy, PartialEq, Eq, Structural)]
pub enum EventType {
    Normal,
    Warning,
}

/// Object an event is about.
#[derive(Debug, Clone)]
pub struct InvolvedObject {
    pub kind: String,
    pub name: String,
    pub namespace: Option<String>,
}

/// Kubernetes client configuration; the kubeconfig location is kept as its path text.
#[derive(Debug, Clone)]
pub struct K8sClientConfig {
    pub name: String,
    pub context: Option<String>,
    pub kubeconfig_path: String,
    pub default_namespace: String,
    pub timeout_secs: u64,
}

/// Replica status.
#[derive(Debug, Clone)]
pub struct Replicas {
    pub desired: u32,
    pub ready: u32,
    pub available: u32,
    pub updated: u32,
}

/// Service information.
#[derive(Debug, Clone)]
pub struct Service {
    pub name: String,
    pub namespace: String,
    pub service_type: ServiceType,
    pub cluster_ip: String,
    pub ports: Vec<ServicePort>,
    pub selector: HashMap<String, String>,
}

/// Service type.
#[derive(Debug, Clone, Copy, PartialEq, Eq, Structural)]
pub enum ServiceType {
    ClusterIP,
    NodePort,
    LoadBalancer,
    ExternalName,
}

/// Service port.
#[derive(Debug, Clone)]
pub struct ServicePort {
    pub name: Option<String>,
    pub port: u16,
    pub target_port: u16,
    pub protocol: String,
}

} // verus!
