//! Helm chart generation for infrastructure resources.
//!
//! The library turns a platform-independent resource description into the
//! files of a Helm chart that delegates to the `pleme-lib` library chart:
//! `Chart.yaml` metadata, `values.yaml`, a JSON schema for the values,
//! Helm templates and a helm-unittest suite, plus FluxCD release manifests.

pub mod text;
pub mod helm_ast;
pub mod config;
pub mod json;
pub mod ir;
pub mod naming;
pub mod traits;
pub mod template_gen;
pub mod values_gen;
pub mod type_map;
pub mod schema_gen;
pub mod model;
pub mod chart_gen;
pub mod test_gen;
pub mod ordering;
pub mod fluxcd_gen;
pub mod helm_backend;

pub use chart_gen::build_chart_yaml;
pub use config::{is_k8s_quantity, HelmConfig};
pub use fluxcd_gen::{
    generate_helmrelease, generate_kustomization, DefaultFluxCdGenerator, FluxCdConfig,
    FluxCdGenerator,
};
pub use helm_ast::{delimiters, render, HelmNode, PipeFilter, Trim};
pub use helm_backend::{
    assemble_chart, generate_resource_artifacts, provider_artifacts, test_artifacts, ChartContents,
};
pub use ir::{ArtifactKind, GeneratedArtifact, IacAttribute, IacResource, IacType};
pub use json::JsonValue;
pub use model::{
    AlertingConfig, ChartDependency, ChartYaml, ImageConfig, MonitoringConfig, PortConfig,
    ResourceQuantity, ResourcesConfig, ServiceConfig, ServicePort, ToggleConfig,
};
pub use naming::{validate_dns1123, Dns1123Result, HelmNaming};
pub use schema_gen::build_values_schema;
pub use template_gen::{
    generate_configmap_template, generate_deployment_template, generate_helpers_tpl,
    generate_hpa_template, generate_networkpolicy_template, generate_pdb_template,
    generate_podmonitor_template, generate_prometheusrule_template, generate_secret_template,
    generate_service_template, generate_serviceaccount_template, generate_servicemonitor_template,
};
pub use test_gen::generate_deployment_test;
pub use traits::{
    AttributeFilter, ChartGenerator, DefaultAttributeFilter, DefaultTemplateGenerator,
    DefaultTestFileGenerator, DefaultValuesGenerator, GenerationStage, SchemaGenerator,
    TemplateGenerator, TestFileGenerator, ValuesGenerator,
};
pub use type_map::iac_type_to_json_schema;
pub use values_gen::{default_yaml_value, generate_values_yaml, generate_values_yaml_with_config};
