use helm_forge::{
    generate_helmrelease, generate_kustomization, DefaultFluxCdGenerator, FluxCdConfig,
    FluxCdGenerator, IacAttribute, IacResource, IacType,
};
use serde_json::Value;

fn attr(name: &str, iac_type: IacType) -> IacAttribute {
    IacAttribute {
        canonical_name: name.replace('-', "_"),
        description: String::new(),
        iac_type,
        required: false,
        computed: false,
        sensitive: false,
        default_value: None,
    }
}

fn test_resource(name: &str) -> IacResource {
    let mut n = attr("name", IacType::String);
    n.required = true;
    n.description = "The resource name".into();
    let mut v = attr("value", IacType::String);
    v.required = true;
    v.sensitive = true;
    v.description = "The resource value".into();
    let mut t = attr("tags", IacType::List(Box::new(IacType::String)));
    t.description = "Resource tags".into();
    IacResource {
        name: name.to_string(),
        description: format!("{name} test resource"),
        category: "test".to_string(),
        attributes: vec![n, v, t],
    }
}

fn test_resource_with_type(name: &str, attr_name: &str, iac_type: IacType) -> IacResource {
    let mut a = attr(attr_name, iac_type);
    a.required = true;
    IacResource {
        name: name.to_string(),
        description: format!("{name} test resource"),
        category: "test".to_string(),
        attributes: vec![a],
    }
}

#[test]
fn default_config_has_sensible_values() {
    let cfg = FluxCdConfig::default();
    assert_eq!(cfg.namespace, "akeyless-system");
    assert_eq!(cfg.source_name, "helm-akeyless-gen");
    assert_eq!(cfg.source_namespace, "flux-system");
    assert_eq!(cfg.source_kind, "GitRepository");
    assert_eq!(cfg.interval, "5m");
    assert_eq!(cfg.chart_interval, "1h");
    assert_eq!(cfg.retries, 3);
}

#[test]
fn fluxcd_gen_config_is_clonable() {
    let cfg = FluxCdConfig::default();
    let cfg2 = cfg.clone();
    assert_eq!(cfg.namespace, cfg2.namespace);
    assert_eq!(cfg.retries, cfg2.retries);
}

#[test]
fn helmrelease_has_correct_api_version_and_kind() {
    let resource = test_resource("static_secret");
    let yaml = generate_helmrelease(&resource, "akeyless", &FluxCdConfig::default());
    assert!(yaml.contains("apiVersion: helm.toolkit.fluxcd.io/v2"));
    assert!(yaml.contains("kind: HelmRelease"));
}

#[test]
fn helmrelease_uses_chart_name_from_resource() {
    let resource = test_resource("auth_method_api_key");
    let yaml = generate_helmrelease(&resource, "akeyless", &FluxCdConfig::default());
    assert!(yaml.contains("name: auth-method-api-key"));
    assert!(yaml.contains("chart: charts/auth-method-api-key"));
}

#[test]
fn helmrelease_uses_default_namespace() {
    let resource = test_resource("test");
    let yaml = generate_helmrelease(&resource, "akeyless", &FluxCdConfig::default());
    assert!(yaml.contains("namespace: akeyless-system"));
}

#[test]
fn helmrelease_uses_default_source_ref() {
    let resource = test_resource("test");
    let yaml = generate_helmrelease(&resource, "akeyless", &FluxCdConfig::default());
    assert!(yaml.contains("kind: GitRepository"));
    assert!(yaml.contains("name: helm-akeyless-gen"));
    assert!(yaml.contains("namespace: flux-system"));
}

#[test]
fn helmrelease_uses_default_intervals() {
    let resource = test_resource("test");
    let yaml = generate_helmrelease(&resource, "akeyless", &FluxCdConfig::default());
    assert!(yaml.contains("interval: 5m"));
    assert!(yaml.contains("interval: 1h"));
}

#[test]
fn helmrelease_uses_default_retries() {
    let resource = test_resource("test");
    let yaml = generate_helmrelease(&resource, "akeyless", &FluxCdConfig::default());
    assert!(yaml.contains("retries: 3"));
}

#[test]
fn helmrelease_has_empty_values() {
    let resource = test_resource("test");
    let yaml = generate_helmrelease(&resource, "akeyless", &FluxCdConfig::default());
    assert!(yaml.contains("values: {}"));
}

#[test]
fn helmrelease_has_install_and_upgrade_remediation() {
    let resource = test_resource("test");
    let yaml = generate_helmrelease(&resource, "akeyless", &FluxCdConfig::default());
    assert!(yaml.contains("install:"));
    assert!(yaml.contains("upgrade:"));
    assert!(yaml.contains("remediation:"));
}

#[test]
fn helmrelease_respects_custom_namespace() {
    let config = FluxCdConfig {
        namespace: "custom-ns".into(),
        ..FluxCdConfig::default()
    };
    let resource = test_resource("test");
    let yaml = generate_helmrelease(&resource, "akeyless", &config);
    assert!(yaml.contains("namespace: custom-ns"));
}

#[test]
fn helmrelease_respects_custom_source() {
    let config = FluxCdConfig {
        source_name: "my-repo".into(),
        source_namespace: "my-ns".into(),
        source_kind: "HelmRepository".into(),
        ..FluxCdConfig::default()
    };
    let resource = test_resource("test");
    let yaml = generate_helmrelease(&resource, "akeyless", &config);
    assert!(yaml.contains("kind: HelmRepository"));
    assert!(yaml.contains("name: my-repo"));
    assert!(yaml.contains("namespace: my-ns"));
}

#[test]
fn helmrelease_respects_custom_intervals() {
    let config = FluxCdConfig {
        interval: "10m".into(),
        chart_interval: "2h".into(),
        ..FluxCdConfig::default()
    };
    let resource = test_resource("test");
    let yaml = generate_helmrelease(&resource, "akeyless", &config);
    assert!(yaml.contains("interval: 10m"));
    assert!(yaml.contains("interval: 2h"));
}

#[test]
fn helmrelease_respects_custom_retries() {
    let config = FluxCdConfig {
        retries: 5,
        ..FluxCdConfig::default()
    };
    let resource = test_resource("test");
    let yaml = generate_helmrelease(&resource, "akeyless", &config);
    assert!(yaml.contains("retries: 5"));
}

#[test]
fn helmrelease_is_valid_yaml() {
    let resource = test_resource("static_secret");
    let yaml_str = generate_helmrelease(&resource, "akeyless", &FluxCdConfig::default());
    let doc: Value = serde_yaml_ng::from_str(&yaml_str).expect("HelmRelease must be valid YAML");
    assert_eq!(doc["apiVersion"], "helm.toolkit.fluxcd.io/v2");
    assert_eq!(doc["kind"], "HelmRelease");
    assert_eq!(doc["metadata"]["name"], "static-secret");
    assert_eq!(doc["metadata"]["namespace"], "akeyless-system");
    assert_eq!(doc["spec"]["chart"]["spec"]["chart"], "charts/static-secret");
}

#[test]
fn default_generator_produces_valid_output() {
    let generator = DefaultFluxCdGenerator {
        config: FluxCdConfig::default(),
    };
    let resource = test_resource("test_res");
    let output = generator.generate(&resource, "akeyless");
    assert!(output.contains("apiVersion: helm.toolkit.fluxcd.io/v2"));
    assert!(output.contains("name: test-res"));
}

#[test]
fn kustomization_lists_all_resources() {
    let resources = vec![
        test_resource("auth_method_api_key"),
        test_resource("static_secret"),
        test_resource("target_ssh"),
    ];
    let kustomization = generate_kustomization(&resources);
    assert!(kustomization.contains("apiVersion: kustomize.config.k8s.io/v1beta1"));
    assert!(kustomization.contains("kind: Kustomization"));
    assert!(kustomization.contains("helmrelease-auth-method-api-key.yaml"));
    assert!(kustomization.contains("helmrelease-static-secret.yaml"));
    assert!(kustomization.contains("helmrelease-target-ssh.yaml"));
}

#[test]
fn kustomization_is_sorted_alphabetically() {
    let resources = vec![
        test_resource("zzz_last"),
        test_resource("aaa_first"),
        test_resource("mmm_middle"),
    ];
    let kustomization = generate_kustomization(&resources);
    let lines: Vec<&str> = kustomization.lines().collect();
    let resource_lines: Vec<&&str> = lines.iter().filter(|l| l.starts_with("  - ")).collect();
    assert_eq!(resource_lines.len(), 3);
    assert!(resource_lines[0].contains("aaa-first"));
    assert!(resource_lines[1].contains("mmm-middle"));
    assert!(resource_lines[2].contains("zzz-last"));
}

#[test]
fn kustomization_empty_resources() {
    let kustomization = generate_kustomization(&[]);
    assert!(kustomization.contains("apiVersion: kustomize.config.k8s.io/v1beta1"));
    assert!(kustomization.contains("kind: Kustomization"));
    assert!(kustomization.contains("resources:"));
    assert!(!kustomization.contains("  - "));
}

#[test]
fn kustomization_is_valid_yaml() {
    let resources = vec![
        test_resource("auth_method_api_key"),
        test_resource("static_secret"),
    ];
    let yaml_str = generate_kustomization(&resources);
    let doc: Value =
        serde_yaml_ng::from_str(&yaml_str).expect("kustomization must be valid YAML");
    assert_eq!(doc["apiVersion"], "kustomize.config.k8s.io/v1beta1");
    assert_eq!(doc["kind"], "Kustomization");
    let res_arr = doc["resources"].as_array().expect("resources should be array");
    assert_eq!(res_arr.len(), 2);
}

#[test]
fn fluxcd_generator_trait_is_object_safe() {
    let _: Box<dyn FluxCdGenerator> = Box::new(DefaultFluxCdGenerator {
        config: FluxCdConfig::default(),
    });
}

#[test]
fn helmrelease_with_snake_case_resource_name() {
    let resource = test_resource_with_type("auth_method_aws_iam", "field", IacType::String);
    let yaml = generate_helmrelease(&resource, "akeyless", &FluxCdConfig::default());
    assert!(yaml.contains("name: auth-method-aws-iam"));
    assert!(yaml.contains("chart: charts/auth-method-aws-iam"));
}

#[test]
fn fluxcd_helmrelease_is_valid_yaml_with_all_fields() {
    let resource = test_resource("static_secret");
    let yaml_str = generate_helmrelease(&resource, "akeyless", &FluxCdConfig::default());
    let doc: Value = serde_yaml_ng::from_str(&yaml_str).expect("HelmRelease must be valid YAML");

    assert_eq!(doc["apiVersion"], "helm.toolkit.fluxcd.io/v2");
    assert_eq!(doc["kind"], "HelmRelease");
    assert_eq!(doc["metadata"]["name"], "static-secret");
    assert_eq!(doc["metadata"]["namespace"], "akeyless-system");
    assert_eq!(doc["spec"]["interval"], "5m");
    assert_eq!(doc["spec"]["chart"]["spec"]["chart"], "charts/static-secret");
    assert_eq!(doc["spec"]["chart"]["spec"]["sourceRef"]["kind"], "GitRepository");
    assert_eq!(doc["spec"]["chart"]["spec"]["sourceRef"]["name"], "helm-akeyless-gen");
    assert_eq!(doc["spec"]["chart"]["spec"]["sourceRef"]["namespace"], "flux-system");
    assert_eq!(doc["spec"]["chart"]["spec"]["interval"], "1h");
    assert_eq!(doc["spec"]["install"]["remediation"]["retries"], 3);
    assert_eq!(doc["spec"]["upgrade"]["remediation"]["retries"], 3);
}

#[test]
fn fluxcd_kustomization_lists_all_resources_sorted() {
    let resources = vec![
        test_resource("zzz_target"),
        test_resource("aaa_auth_method"),
        test_resource("mmm_secret"),
    ];
    let yaml_str = generate_kustomization(&resources);
    let doc: Value = serde_yaml_ng::from_str(&yaml_str).expect("kustomization must be valid YAML");

    assert_eq!(doc["apiVersion"], "kustomize.config.k8s.io/v1beta1");
    assert_eq!(doc["kind"], "Kustomization");
    let res_arr = doc["resources"].as_array().expect("resources should be array");
    assert_eq!(res_arr.len(), 3);
    assert_eq!(res_arr[0], "helmrelease-aaa-auth-method.yaml");
    assert_eq!(res_arr[1], "helmrelease-mmm-secret.yaml");
    assert_eq!(res_arr[2], "helmrelease-zzz-target.yaml");
}

#[test]
fn fluxcd_generator_trait_is_object_safe_integration() {
    let generator: Box<dyn FluxCdGenerator> = Box::new(DefaultFluxCdGenerator {
        config: FluxCdConfig::default(),
    });
    let resource = test_resource("test");
    let output = generator.generate(&resource, "akeyless");
    assert!(output.contains("kind: HelmRelease"));
}

// ── Exact output, sorting by character code, duplicates ────────────────

#[test]
fn helmrelease_exact_text() {
    let resource = test_resource("my_app");
    let yaml = generate_helmrelease(&resource, "p", &FluxCdConfig::default());
    assert_eq!(
        yaml,
        "apiVersion: helm.toolkit.fluxcd.io/v2\nkind: HelmRelease\nmetadata:\n  name: my-app\n  namespace: akeyless-system\nspec:\n  interval: 5m\n  chart:\n    spec:\n      chart: charts/my-app\n      sourceRef:\n        kind: GitRepository\n        name: helm-akeyless-gen\n        namespace: flux-system\n      interval: 1h\n  install:\n    remediation:\n      retries: 3\n  upgrade:\n    remediation:\n      retries: 3\n  values: {}\n"
    );
}

#[test]
fn helmrelease_falls_back_to_kebab_case_for_unusable_names() {
    let resource = test_resource("@_@");
    let yaml = generate_helmrelease(&resource, "p", &FluxCdConfig::default());
    assert!(yaml.contains("  name: @-@\n"));
}

#[test]
fn kustomization_sorts_by_character_code_and_keeps_duplicates() {
    let resources = vec![
        test_resource("b"),
        test_resource("a_b"),
        test_resource("a"),
        test_resource("b"),
        test_resource("a9"),
    ];
    assert_eq!(
        generate_kustomization(&resources),
        "apiVersion: kustomize.config.k8s.io/v1beta1\nkind: Kustomization\nresources:\n  - helmrelease-a-b.yaml\n  - helmrelease-a.yaml\n  - helmrelease-a9.yaml\n  - helmrelease-b.yaml\n  - helmrelease-b.yaml\n"
    );
}
