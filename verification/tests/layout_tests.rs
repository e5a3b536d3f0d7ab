use helm_forge::{
    assemble_chart, generate_kustomization, provider_artifacts, test_artifacts, ArtifactKind,
    ChartContents, FluxCdConfig, ToggleConfig,
};

fn contents(configmap: &str, helmrelease: Option<&str>) -> ChartContents {
    ChartContents {
        chart: "C".into(),
        values: "V".into(),
        schema: "S".into(),
        helpers: "H".into(),
        delegates: vec![
            ("deployment.yaml".into(), "D1".into()),
            ("service.yaml".into(), "D2".into()),
        ],
        prometheusrule: "P".into(),
        configmap: configmap.into(),
        secret: String::new(),
        test: "T".into(),
        helmrelease: helmrelease.map(|h| h.to_string()),
    }
}

#[test]
fn toggle_config_convenience() {
    assert!(ToggleConfig::on().enabled);
    assert!(!ToggleConfig::off().enabled);
}

#[test]
fn chart_layout_paths_and_order() {
    let artifacts = assemble_chart("static_secret", contents("CM", None)).unwrap();
    let got: Vec<(&str, &str, ArtifactKind)> = artifacts
        .iter()
        .map(|a| (a.path.as_str(), a.content.as_str(), a.kind))
        .collect();
    assert_eq!(
        got,
        vec![
            ("charts/static-secret/Chart.yaml", "C", ArtifactKind::Resource),
            ("charts/static-secret/values.yaml", "V", ArtifactKind::Resource),
            ("charts/static-secret/values.schema.json", "S", ArtifactKind::Schema),
            ("charts/static-secret/templates/_helpers.tpl", "H", ArtifactKind::Resource),
            ("charts/static-secret/templates/deployment.yaml", "D1", ArtifactKind::Resource),
            ("charts/static-secret/templates/service.yaml", "D2", ArtifactKind::Resource),
            ("charts/static-secret/templates/prometheusrule.yaml", "P", ArtifactKind::Resource),
            ("charts/static-secret/templates/configmap.yaml", "CM", ArtifactKind::Resource),
            ("charts/static-secret/tests/deployment_test.yaml", "T", ArtifactKind::Test),
        ]
    );
}

#[test]
fn chart_layout_skips_empty_templates_and_adds_helmrelease() {
    let artifacts = assemble_chart("my_app", contents("", Some("HR"))).unwrap();
    assert!(!artifacts.iter().any(|a| a.path.ends_with("configmap.yaml")));
    assert!(!artifacts.iter().any(|a| a.path.ends_with("secret.yaml")));
    let last = artifacts.last().unwrap();
    assert_eq!(last.path, "fluxcd/helmrelease-my-app.yaml");
    assert_eq!(last.content, "HR");
}

#[test]
fn dns1123_invalid_name_returns_error() {
    let result = assemble_chart("---", contents("", None));
    assert!(result.is_err());
}

#[test]
fn dns1123_valid_resource_name_generates_chart() {
    let artifacts = assemble_chart("my-valid-name", contents("", None)).unwrap();
    assert!(artifacts.iter().any(|a| a.path.contains("my-valid-name")));
}

#[test]
fn test_and_provider_artifacts() {
    let t = test_artifacts("static_secret", "T".into());
    assert_eq!(t.len(), 1);
    assert_eq!(t[0].path, "charts/static-secret/tests/deployment_test.yaml");
    assert_eq!(t[0].kind, ArtifactKind::Test);
    assert!(provider_artifacts(None, &[]).is_empty());
    let cfg = FluxCdConfig::default();
    let p = provider_artifacts(Some(&cfg), &[]);
    assert_eq!(p.len(), 1);
    assert_eq!(p[0].path, "fluxcd/kustomization.yaml");
    assert_eq!(p[0].content, generate_kustomization(&[]));
}

#[test]
fn chart_directory_is_the_kebab_case_name() {
    let artifacts = assemble_chart("My_App", contents("", Some("HR"))).unwrap();
    assert_eq!(artifacts[0].path, "charts/My-App/Chart.yaml");
    assert_eq!(artifacts.last().unwrap().path, "fluxcd/helmrelease-my-app.yaml");
    let long = "a".repeat(70);
    let artifacts = assemble_chart(&long, contents("", None)).unwrap();
    assert_eq!(artifacts[0].path, format!("charts/{long}/Chart.yaml"));
}
