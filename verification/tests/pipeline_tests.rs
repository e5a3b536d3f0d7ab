use helm_forge::{
    build_values_schema, generate_helmrelease, generate_resource_artifacts, ArtifactKind,
    ChartGenerator, DefaultTemplateGenerator, DefaultTestFileGenerator, DefaultValuesGenerator,
    FluxCdConfig, GeneratedArtifact, HelmConfig, IacAttribute, IacResource, IacType,
    SchemaGenerator, ValuesGenerator,
};

fn attr(name: &str, iac_type: IacType, required: bool, sensitive: bool) -> IacAttribute {
    IacAttribute {
        canonical_name: name.to_string(),
        description: String::new(),
        iac_type,
        required,
        computed: false,
        sensitive,
        default_value: None,
    }
}

fn resource(name: &str) -> IacResource {
    IacResource {
        name: name.to_string(),
        description: format!("{name} test resource"),
        category: "test".to_string(),
        attributes: vec![
            attr("name", IacType::String, true, false),
            attr("value", IacType::String, true, true),
            attr("tags", IacType::List(Box::new(IacType::String)), false, false),
        ],
    }
}

struct FixedChart(String);

impl ChartGenerator for FixedChart {
    fn generate(&self, _resource: &IacResource, _provider_name: &str) -> String {
        self.0.clone()
    }
}

struct FixedValues(String);

impl ValuesGenerator for FixedValues {
    fn generate(&self, _resource: &IacResource) -> String {
        self.0.clone()
    }
}

struct SchemaKeys;

impl SchemaGenerator for SchemaKeys {
    fn generate(&self, resource: &IacResource) -> String {
        format!("{:?}", build_values_schema(resource))
    }
}

fn run(
    chart: &dyn ChartGenerator,
    values: &dyn ValuesGenerator,
    fluxcd: Option<&FluxCdConfig>,
    r: &IacResource,
) -> Result<Vec<GeneratedArtifact>, String> {
    generate_resource_artifacts(
        chart,
        values,
        &SchemaKeys,
        &DefaultTemplateGenerator,
        &DefaultTestFileGenerator,
        fluxcd,
        r,
        "akeyless",
    )
}

fn default_values() -> DefaultValuesGenerator {
    DefaultValuesGenerator { config: HelmConfig::default() }
}

#[test]
fn resource_artifacts_cover_every_chart_file() {
    let r = resource("static_secret");
    let artifacts = run(&FixedChart("CHART".into()), &default_values(), None, &r).unwrap();
    let paths: Vec<&str> = artifacts.iter().map(|a| a.path.as_str()).collect();
    for p in [
        "charts/static-secret/Chart.yaml",
        "charts/static-secret/values.yaml",
        "charts/static-secret/values.schema.json",
        "charts/static-secret/templates/_helpers.tpl",
        "charts/static-secret/templates/deployment.yaml",
        "charts/static-secret/templates/service.yaml",
        "charts/static-secret/templates/serviceaccount.yaml",
        "charts/static-secret/templates/servicemonitor.yaml",
        "charts/static-secret/templates/networkpolicy.yaml",
        "charts/static-secret/templates/pdb.yaml",
        "charts/static-secret/templates/hpa.yaml",
        "charts/static-secret/templates/podmonitor.yaml",
        "charts/static-secret/templates/prometheusrule.yaml",
        "charts/static-secret/templates/configmap.yaml",
        "charts/static-secret/templates/secret.yaml",
        "charts/static-secret/tests/deployment_test.yaml",
    ] {
        assert!(paths.contains(&p), "missing {p}");
    }
    assert_eq!(artifacts.len(), 16);
    let schema = artifacts.iter().find(|a| a.path.ends_with("values.schema.json")).unwrap();
    assert_eq!(schema.kind, ArtifactKind::Schema);
    let test = artifacts.iter().find(|a| a.path.ends_with("deployment_test.yaml")).unwrap();
    assert_eq!(test.kind, ArtifactKind::Test);
}

#[test]
fn resource_artifacts_carry_injected_generator_output() {
    let r = resource("test");
    let artifacts =
        run(&FixedChart("MOCK_CHART".into()), &FixedValues("MOCK_VALUES".into()), None, &r).unwrap();
    let chart = artifacts.iter().find(|a| a.path.ends_with("Chart.yaml")).unwrap();
    assert_eq!(chart.content, "MOCK_CHART");
    let values = artifacts.iter().find(|a| a.path.ends_with("values.yaml")).unwrap();
    assert_eq!(values.content, "MOCK_VALUES");

    let mixed = run(&FixedChart("CUSTOM".into()), &default_values(), None, &r).unwrap();
    let values = mixed.iter().find(|a| a.path.ends_with("values.yaml")).unwrap();
    assert!(values.content.contains("image:"));
}

#[test]
fn resource_artifacts_are_deterministic() {
    let r = resource("determinism_test");
    let a = run(&FixedChart("C".into()), &default_values(), None, &r).unwrap();
    let b = run(&FixedChart("C".into()), &default_values(), None, &r).unwrap();
    assert_eq!(a.len(), b.len());
    for (x, y) in a.iter().zip(b.iter()) {
        assert_eq!(x.path, y.path);
        assert_eq!(x.content, y.content);
        assert_eq!(x.kind, y.kind);
    }
}

#[test]
fn resource_artifacts_without_attributes_have_no_configmap_or_secret() {
    let mut r = resource("empty");
    r.attributes.clear();
    let artifacts = run(&FixedChart("C".into()), &default_values(), None, &r).unwrap();
    assert!(artifacts.iter().any(|a| a.path.ends_with("Chart.yaml")));
    assert!(artifacts.iter().any(|a| a.path.ends_with("values.yaml")));
    assert!(artifacts.iter().any(|a| a.path.ends_with("values.schema.json")));
    assert!(!artifacts.iter().any(|a| a.path.ends_with("configmap.yaml")));
    assert!(!artifacts.iter().any(|a| a.path.ends_with("secret.yaml")));
}

#[test]
fn resource_templates_have_balanced_braces() {
    let r = resource("test_res");
    let artifacts = run(&FixedChart("C".into()), &default_values(), None, &r).unwrap();
    for a in artifacts.iter().filter(|a| a.path.contains("/templates/")) {
        assert_eq!(a.content.matches("{{").count(), a.content.matches("}}").count(), "{}", a.path);
        assert!(!a.content.contains("{{{"), "{}", a.path);
        assert!(!a.content.contains("}}}"), "{}", a.path);
    }
}

#[test]
fn resource_artifacts_with_fluxcd_end_in_the_helmrelease() {
    let r = resource("static_secret");
    let cfg = FluxCdConfig::default();
    let artifacts = run(&FixedChart("C".into()), &default_values(), Some(&cfg), &r).unwrap();
    let last = artifacts.last().unwrap();
    assert_eq!(last.path, "fluxcd/helmrelease-static-secret.yaml");
    assert_eq!(last.content, generate_helmrelease(&r, "akeyless", &cfg));
    assert_eq!(artifacts.iter().filter(|a| a.path.starts_with("fluxcd/")).count(), 1);

    let without = run(&FixedChart("C".into()), &default_values(), None, &r).unwrap();
    assert!(!without.iter().any(|a| a.path.starts_with("fluxcd/")));
    assert_eq!(without.len() + 1, artifacts.len());
}

#[test]
fn resource_artifacts_refuse_a_name_without_label() {
    let r = resource("___");
    let err = run(&FixedChart("C".into()), &default_values(), None, &r).unwrap_err();
    assert!(err.contains("___"));
}
