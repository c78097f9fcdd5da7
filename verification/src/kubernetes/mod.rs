//! Kubernetes access: kubeconfig safety checks.

pub mod kubeconfig;
