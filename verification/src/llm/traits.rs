//! Entities that intent classification extracts.

use vstd::prelude::*;

verus! {

/// The instructions of the model that classifies intents: the intent types, the entities to
/// extract (Kubernetes and domain specific), the domain keywords, an example, and the demand
/// for a bare JSON answer.
pub const INTENT_CLASSIFICATION_PROMPT: &'static str = "你是一个运维助手，擅长Kubernetes和AI运维。用户会描述一个问题，你需要识别其意图类型并提取相关实体。\n\n## 意图类型\n- Logs: 查看日志（如：查看日志、tail logs、查看 pod 日志）\n- Metrics: 查询指标/监控（如：查询 CPU、指标、监控、Prometheus）\n- Health: 健康检查（如：检查状态、健康检查、集群状态）\n- Debug: 故障排查（如：排查问题、debug、为什么挂了、诊断）\n- Query: 数据查询（如：查询、search、搜索）\n- Scale: 扩缩容（如：扩容、缩容、scale）\n- Deploy: 部署（如：部署、发布、deploy）\n\n## 实体提取（要识别所有相关实体）\n\n### 标准K8s实体\n- pod_name: Pod 名称\n- namespace: 命名空间\n- cluster: 集群名称\n- service_name: 服务名\n- deployment_name: Deployment 名称\n- node_name: 节点名称\n\n### 领域特定实体（重要！）\n- domain: 领域，如 gpu, storage, network, database, apigw\n- virtualization: 虚拟化技术，如 hami, vgpu, time-slicing, gpushare\n- kubernetes_resource: K8s资源类型，如 pod, deployment, statefulset, daemonset, job\n- resource_state: 资源状态，如 pending, crashloop, error, oom, running, terminated\n- error_keyword: 错误关键词，如 502, 500, 404, oom, crashloop, timeout\n\n## 领域关键词识别\n请注意识别以下常见领域：\n- **GPU虚拟化**: hami, gpu, vgpu, nvidia, cuda, gpumem, device-plugin\n- **网关/APISIX**: apisix, apigw, gateway, ingress, nginx, openresty\n- **DNS/CoreDNS**: coredns, dns, kubelet, clusterDNS, resolv.conf\n- **存储**: storage, pvc, ceph, nfs, persistentvolume\n- **监控**: prometheus, victoriametrics, metrics, alert\n- **OOM/内存**: oom, memory, crashloop, oomkill\n\n## 示例\n输入: \"gpu 虚拟化的集群里面有个 pod 一直 pending 看下是什么问题\"\n输出: {\"intent\": \"Debug\", \"confidence\": 0.95, \"entities\": {\"pod_name\": null, \"namespace\": null, \"domain\": \"gpu\", \"virtualization\": \"hami\", \"kubernetes_resource\": \"pod\", \"resource_state\": \"pending\", \"reasoning\": \"用户遇到GPU虚拟化集群中Pod调度失败问题，需要按HAMi诊断流程排查\"}}\n\n直接返回 JSON 格式，不要有其他内容";

/// Entities extracted from a user message (Kubernetes and domain aware).
#[derive(Debug, Clone, Default)]
pub struct IntentEntities {
    pub pod_name: Option<String>,
    pub namespace: Option<String>,
    pub cluster: Option<String>,
    pub service_name: Option<String>,
    pub deployment_name: Option<String>,
    pub node_name: Option<String>,
    pub query: Option<String>,
    /// gpu, storage, network, database, ...
    pub domain: Option<String>,
    /// hami, vgpu, time-slicing, ...
    pub virtualization: Option<String>,
    /// pod, deployment, statefulset, daemonset, ...
    pub kubernetes_resource: Option<String>,
    /// pending, crashloop, error, oom, ...
    pub resource_state: Option<String>,
    /// 502, 500, 404, oom, ...
    pub error_keyword: Option<String>,
}

impl IntentEntities {
    pub open spec fn is_empty(self) -> bool {
        &&& self.pod_name is None
        &&& self.namespace is None
        &&& self.cluster is None
        &&& self.service_name is None
        &&& self.deployment_name is None
        &&& self.node_name is None
        &&& self.query is None
        &&& self.domain is None
        &&& self.virtualization is None
        &&& self.kubernetes_resource is None
        &&& self.resource_state is None
        &&& self.error_keyword is None
    }

    /// No entity set.
    pub fn new() -> (e: IntentEntities)
        ensures
            e.is_empty(),
    {
        IntentEntities {
            pod_name: None,
            namespace: None,
            cluster: None,
            service_name: None,
            deployment_name: None,
            node_name: None,
            query: None,
            domain: None,
            virtualization: None,
            kubernetes_resource: None,
            resource_state: None,
            error_keyword: None,
        }
    }

    pub fn with_pod(self, pod: &str) -> (e: IntentEntities)
        ensures
            e.pod_name matches Some(p) && p@ == pod@,
            e == (IntentEntities { pod_name: e.pod_name, ..self }),
    {
        IntentEntities { pod_name: Some(pod.to_string()), ..self }
    }

    pub fn with_namespace(self, ns: &str) -> (e: IntentEntities)
        ensures
            e.namespace matches Some(n) && n@ == ns@,
            e == (IntentEntities { namespace: e.namespace, ..self }),
    {
        IntentEntities { namespace: Some(ns.to_string()), ..self }
    }

    pub fn with_cluster(self, cluster: &str) -> (e: IntentEntities)
        ensures
            e.cluster matches Some(c) && c@ == cluster@,
            e == (IntentEntities { cluster: e.cluster, ..self }),
    {
        IntentEntities { cluster: Some(cluster.to_string()), ..self }
    }
}

/// Entities as the model's JSON answer names them.
#[derive(Debug, Clone, Default)]
pub struct ParsedEntities {
    pub pod_name: Option<String>,
    pub namespace: Option<String>,
    pub cluster: Option<String>,
    pub service_name: Option<String>,
    pub deployment_name: Option<String>,
    pub node_name: Option<String>,
    pub query: Option<String>,
    pub domain: Option<String>,
    pub virtualization: Option<String>,
    pub kubernetes_resource: Option<String>,
    pub resource_state: Option<String>,
    pub error_keyword: Option<String>,
}

impl IntentEntities {
    /// Every field carried over from the parsed answer.
    pub fn from_parsed(p: ParsedEntities) -> (e: IntentEntities)
        ensures
            e.pod_name == p.pod_name,
            e.namespace == p.namespace,
            e.cluster == p.cluster,
            e.service_name == p.service_name,
            e.deployment_name == p.deployment_name,
            e.node_name == p.node_name,
            e.query == p.query,
            e.domain == p.domain,
            e.virtualization == p.virtualization,
            e.kubernetes_resource == p.kubernetes_resource,
            e.resource_state == p.resource_state,
            e.error_keyword == p.error_keyword,
    {
        IntentEntities {
            pod_name: p.pod_name,
            namespace: p.namespace,
            cluster: p.cluster,
            service_name: p.service_name,
            deployment_name: p.deployment_name,
            node_name: p.node_name,
            query: p.query,
            domain: p.domain,
            virtualization: p.virtualization,
            kubernetes_resource: p.kubernetes_resource,
            resource_state: p.resource_state,
            error_keyword: p.error_keyword,
        }
    }
}

impl From<ParsedEntities> for IntentEntities {
    fn from(p: ParsedEntities) -> (e: IntentEntities) {
        IntentEntities::from_parsed(p)
    }
}

impl vstd::std_specs::convert::FromSpecImpl<ParsedEntities> for IntentEntities {
    open spec fn obeys_from_spec() -> bool {
        true
    }

    open spec fn from_spec(p: ParsedEntities) -> IntentEntities {
        IntentEntities {
            pod_name: p.pod_name,
            namespace: p.namespace,
            cluster: p.cluster,
            service_name: p.service_name,
            deployment_name: p.deployment_name,
            node_name: p.node_name,
            query: p.query,
            domain: p.domain,
            virtualization: p.virtualization,
            kubernetes_resource: p.kubernetes_resource,
            resource_state: p.resource_state,
            error_keyword: p.error_keyword,
        }
    }
}

} // verus!
