//! The data of the YAML files a chart contains. Serialisation to YAML is done
//! by the application around the library.

use vstd::prelude::*;

verus! {

/// A Helm `Chart.yaml`.
#[derive(Debug)]
pub struct ChartYaml {
    pub api_version: String,
    pub name: String,
    pub description: String,
    pub chart_type: String,
    pub version: String,
    pub app_version: String,
    /// Chart dependencies (omitted from the YAML when empty).
    pub dependencies: Vec<ChartDependency>,
    /// Annotations as (key, value) pairs in increasing key order, each key
    /// once (omitted from the YAML when empty).
    pub annotations: Vec<(String, String)>,
}

/// A dependency entry of `Chart.yaml`.
#[derive(Debug)]
pub struct ChartDependency {
    pub name: String,
    pub version: String,
    pub repository: String,
}

/// A container port.
#[derive(Debug, Clone)]
pub struct PortConfig {
    pub name: String,
    pub container_port: u16,
    pub protocol: String,
}

/// A Kubernetes Service.
#[derive(Debug)]
pub struct ServiceConfig {
    pub service_type: String,
    pub ports: Vec<ServicePort>,
}

/// A port of a Service.
#[derive(Debug, Clone)]
pub struct ServicePort {
    pub name: String,
    pub port: u16,
    pub target_port: String,
    pub protocol: String,
}

/// A container image.
#[derive(Debug, Clone)]
pub struct ImageConfig {
    pub repository: String,
    pub tag: String,
    pub pull_policy: String,
}

/// Resource requests and limits.
#[derive(Debug, Clone)]
pub struct ResourcesConfig {
    pub requests: ResourceQuantity,
    pub limits: ResourceQuantity,
}

/// CPU and memory quantities.
#[derive(Debug, Clone)]
pub struct ResourceQuantity {
    pub cpu: String,
    pub memory: String,
}

/// Monitoring, with its alerting sub-section.
#[derive(Debug, Clone)]
pub struct MonitoringConfig {
    pub enabled: bool,
    pub alerting: AlertingConfig,
    pub interval: String,
    pub port: String,
    pub path: String,
}

/// Alerting (PrometheusRule) configuration.
#[derive(Debug, Clone, Copy)]
pub struct AlertingConfig {
    pub enabled: bool,
}

/// A `{ enabled: bool }` feature toggle.
#[derive(Debug, Clone, Copy, PartialEq, Eq)]
pub struct ToggleConfig {
    pub enabled: bool,
}

impl ToggleConfig {
    /// An enabled toggle.
    pub fn on() -> (res: Self)
        ensures
            res.enabled,
    {
        ToggleConfig { enabled: true }
    }

    /// A disabled toggle.
    pub fn off() -> (res: Self)
        ensures
            !res.enabled,
    {
        ToggleConfig { enabled: false }
    }
}

} // verus!
