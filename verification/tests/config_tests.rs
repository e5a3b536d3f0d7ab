use helm_forge::{is_k8s_quantity, HelmConfig};

#[test]
fn default_config_has_pleme_lib() {
    let cfg = HelmConfig::default();
    assert_eq!(cfg.lib_chart_name, "pleme-lib");
    assert_eq!(cfg.lib_chart_version, "~0.4.0");
}

#[test]
fn default_config_reasonable_defaults() {
    let cfg = HelmConfig::default();
    assert_eq!(cfg.replica_count, 1);
    assert_eq!(cfg.image_pull_policy, "Always");
    assert!(cfg.monitoring_enabled);
    assert!(cfg.network_policy_enabled);
    assert!(!cfg.pdb_enabled);
    assert!(!cfg.autoscaling_enabled);
}

#[test]
fn config_config_is_clonable() {
    let cfg = HelmConfig::default();
    let cfg2 = cfg.clone();
    assert_eq!(cfg.lib_chart_name, cfg2.lib_chart_name);
    assert_eq!(cfg.replica_count, cfg2.replica_count);
}

#[test]
fn default_config_is_valid() {
    let cfg = HelmConfig::default();
    assert!(cfg.validate().is_empty());
}

#[test]
fn validate_empty_lib_chart_version() {
    let cfg = HelmConfig {
        lib_chart_version: String::new(),
        ..HelmConfig::default()
    };
    let errors = cfg.validate();
    assert!(errors.iter().any(|e| e.contains("lib_chart_version")));
}

#[test]
fn validate_empty_default_chart_version() {
    let cfg = HelmConfig {
        default_chart_version: String::new(),
        ..HelmConfig::default()
    };
    let errors = cfg.validate();
    assert!(errors.iter().any(|e| e.contains("default_chart_version")));
}

#[test]
fn validate_zero_replica_count() {
    let cfg = HelmConfig {
        replica_count: 0,
        ..HelmConfig::default()
    };
    let errors = cfg.validate();
    assert!(errors.iter().any(|e| e.contains("replica_count")));
}

#[test]
fn validate_invalid_cpu_request() {
    let cfg = HelmConfig {
        cpu_request: "not-a-quantity".into(),
        ..HelmConfig::default()
    };
    let errors = cfg.validate();
    assert!(errors.iter().any(|e| e.contains("cpu_request")));
}

#[test]
fn validate_invalid_memory_request() {
    let cfg = HelmConfig {
        memory_request: "".into(),
        ..HelmConfig::default()
    };
    let errors = cfg.validate();
    assert!(errors.iter().any(|e| e.contains("memory_request")));
}

#[test]
fn validate_valid_quantities() {
    for q in &["50m", "100m", "0.5", "1", "128Mi", "1Gi", "256Ki"] {
        assert!(is_k8s_quantity(q), "{q} should be a valid quantity");
    }
}

#[test]
fn validate_invalid_quantities() {
    for q in &["", "abc", "Mi", "-5m", "not-valid"] {
        assert!(!is_k8s_quantity(q), "{q} should not be a valid quantity");
    }
}

#[test]
fn validate_multiple_errors_at_once() {
    let cfg = HelmConfig {
        lib_chart_version: String::new(),
        default_chart_version: String::new(),
        replica_count: 0,
        cpu_request: "bad".into(),
        memory_request: "bad".into(),
        ..HelmConfig::default()
    };
    let errors = cfg.validate();
    assert_eq!(errors.len(), 5);
}

#[test]
fn default_helm_config_passes_validation() {
    let cfg = HelmConfig::default();
    assert!(cfg.validate().is_empty());
}

#[test]
fn helm_config_validation_catches_all_errors() {
    let cfg = HelmConfig {
        lib_chart_version: String::new(),
        default_chart_version: String::new(),
        replica_count: 0,
        cpu_request: "bad-value".into(),
        memory_request: "xyz".into(),
        ..HelmConfig::default()
    };
    let errors = cfg.validate();
    assert_eq!(errors.len(), 5);
    assert!(errors.iter().any(|e| e.contains("lib_chart_version")));
    assert!(errors.iter().any(|e| e.contains("default_chart_version")));
    assert!(errors.iter().any(|e| e.contains("replica_count")));
    assert!(errors.iter().any(|e| e.contains("cpu_request")));
    assert!(errors.iter().any(|e| e.contains("memory_request")));
}

// ── Exact messages, order, and the quantity rule's corners ─────────────

#[test]
fn validation_messages_are_exact_and_ordered() {
    let cfg = HelmConfig {
        lib_chart_version: String::new(),
        replica_count: 0,
        cpu_request: "1x".into(),
        ..HelmConfig::default()
    };
    let errors = cfg.validate();
    assert_eq!(
        errors,
        vec![
            "lib_chart_version must not be empty".to_string(),
            "replica_count must be greater than 0".to_string(),
            "cpu_request '1x' does not look like a valid Kubernetes quantity".to_string(),
        ]
    );
}

#[test]
fn quantity_suffix_and_exponent_rules() {
    // Plain numbers may carry an exponent marker.
    assert!(is_k8s_quantity("2e3"));
    assert!(is_k8s_quantity("500"));
    // A decimal suffix: the exponent marker is not allowed before it.
    assert!(!is_k8s_quantity("2e3m"));
    // `E` alone is the exa suffix, which needs a mantissa.
    assert!(is_k8s_quantity("2E"));
    assert!(!is_k8s_quantity("E"));
    // The binary suffix wins over the single-letter one.
    assert!(is_k8s_quantity("1.5Ki"));
    assert!(!is_k8s_quantity("Ki"));
    assert!(is_k8s_quantity("3k"));
}

#[test]
fn default_config_container_defaults() {
    let cfg = HelmConfig::default();
    assert_eq!(cfg.default_image_repository, "ghcr.io/pleme-io/placeholder");
    assert_eq!(cfg.default_container_port, 8080);
    assert_eq!(cfg.default_service_type, "ClusterIP");
    assert_eq!(cfg.lib_chart_repository, "file://../pleme-lib");
    assert_eq!(cfg.default_chart_version, "0.1.0");
    assert_eq!(cfg.default_app_version, "1.0.0");
    assert_eq!(cfg.cpu_request, "50m");
    assert_eq!(cfg.memory_request, "64Mi");
    assert_eq!(cfg.cpu_limit, "200m");
    assert_eq!(cfg.memory_limit, "256Mi");
}
