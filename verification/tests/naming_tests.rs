use helm_forge::{validate_dns1123, ArtifactKind, Dns1123Result, HelmNaming};

#[test]
fn resource_type_name_kebab_cases() {
    let naming = HelmNaming;
    assert_eq!(
        naming.resource_type_name("static_secret", "akeyless"),
        "static-secret"
    );
}

#[test]
fn field_name_snake_cases() {
    let naming = HelmNaming;
    assert_eq!(
        naming.field_name("bound-aws-account-id"),
        "bound_aws_account_id"
    );
}

#[test]
fn file_name_resource() {
    let naming = HelmNaming;
    assert_eq!(
        naming.file_name("static_secret", &ArtifactKind::Resource),
        "charts/static-secret/Chart.yaml"
    );
}

#[test]
fn file_name_schema() {
    let naming = HelmNaming;
    assert_eq!(
        naming.file_name("static_secret", &ArtifactKind::Schema),
        "charts/static-secret/values.schema.json"
    );
}

#[test]
fn file_name_test() {
    let naming = HelmNaming;
    assert_eq!(
        naming.file_name("static_secret", &ArtifactKind::Test),
        "charts/static-secret/tests/deployment_test.yaml"
    );
}

#[test]
fn file_name_other_kinds() {
    let naming = HelmNaming;
    assert_eq!(
        naming.file_name("static_secret", &ArtifactKind::Module),
        "charts/static-secret/static-secret.yaml"
    );
}

#[test]
fn dns1123_valid_simple_name() {
    let result = validate_dns1123("my-app").unwrap();
    assert_eq!(result, Dns1123Result::Valid("my-app".into()));
    assert_eq!(result.name(), "my-app");
}

#[test]
fn dns1123_valid_snake_case_converted() {
    let result = validate_dns1123("static_secret").unwrap();
    assert_eq!(result, Dns1123Result::Valid("static-secret".into()));
}

#[test]
fn dns1123_valid_single_char() {
    let result = validate_dns1123("a").unwrap();
    assert_eq!(result, Dns1123Result::Valid("a".into()));
}

#[test]
fn dns1123_valid_numeric() {
    let result = validate_dns1123("app123").unwrap();
    assert_eq!(result, Dns1123Result::Valid("app123".into()));
}

#[test]
fn dns1123_valid_max_length() {
    let name = "a".repeat(63);
    let result = validate_dns1123(&name).unwrap();
    assert_eq!(result, Dns1123Result::Valid(name));
}

#[test]
fn dns1123_truncates_long_name() {
    let name = "a".repeat(70);
    let result = validate_dns1123(&name).unwrap();
    assert!(matches!(result, Dns1123Result::Truncated(_)));
    assert_eq!(result.name().len(), 63);
}

#[test]
fn dns1123_truncation_strips_trailing_hyphen() {
    let prefix = "a".repeat(62);
    let name = format!("{prefix}-bbbbbbbbb");
    let result = validate_dns1123(&name).unwrap();
    assert!(matches!(result, Dns1123Result::Truncated(_)));
    assert!(!result.name().ends_with('-'));
}

#[test]
fn dns1123_strips_invalid_characters() {
    let result = validate_dns1123("my@app!name").unwrap();
    assert_eq!(result, Dns1123Result::Valid("myappname".into()));
}

#[test]
fn dns1123_strips_leading_trailing_hyphens() {
    let result = validate_dns1123("-my-app-").unwrap();
    assert_eq!(result, Dns1123Result::Valid("my-app".into()));
}

#[test]
fn dns1123_uppercase_lowered() {
    let result = validate_dns1123("MyApp").unwrap();
    assert_eq!(result, Dns1123Result::Valid("myapp".into()));
}

#[test]
fn dns1123_uppercase_snake_case() {
    let result = validate_dns1123("My_App").unwrap();
    assert_eq!(result, Dns1123Result::Valid("my-app".into()));
}

#[test]
fn dns1123_empty_name_is_error() {
    assert!(validate_dns1123("").is_err());
}

#[test]
fn dns1123_only_invalid_chars_is_error() {
    assert!(validate_dns1123("@#$%").is_err());
}

#[test]
fn dns1123_only_hyphens_is_error() {
    assert!(validate_dns1123("---").is_err());
}

#[test]
fn dns1123_long_name_truncated_in_generation() {
    let long_name = "a".repeat(70);
    let result = validate_dns1123(&long_name).unwrap();
    assert!(matches!(result, Dns1123Result::Truncated(_)));
    assert_eq!(result.name().len(), 63);
}

// ── Exact results, the error message, and normalisation of labels ──────

#[test]
fn dns1123_error_message_names_the_input() {
    assert_eq!(
        validate_dns1123("@@").unwrap_err(),
        "resource name '@@' produces an empty DNS-1123 label after normalisation"
    );
}

#[test]
fn dns1123_exact_truncation() {
    let prefix = "a".repeat(62);
    let name = format!("{prefix}-bbbbbbbbb");
    assert_eq!(
        validate_dns1123(&name).unwrap(),
        Dns1123Result::Truncated(prefix)
    );
}

#[test]
fn dns1123_valid_labels_are_fixed_points() {
    for label in ["a", "x-1", "abc-def-9", &"z".repeat(63)] {
        let r = validate_dns1123(label).unwrap();
        assert_eq!(r, Dns1123Result::Valid(label.to_string()));
        let again = validate_dns1123(r.name()).unwrap();
        assert_eq!(again, r);
    }
}

#[test]
fn dns1123_output_is_always_a_label() {
    for raw in ["Hello_World!!", "__x__", "A-B-C", "9lives", "ÜBER_name"] {
        let r = validate_dns1123(raw).unwrap();
        let n = r.name();
        assert!(!n.is_empty() && n.len() <= 63);
        assert!(n.chars().all(|c| c.is_ascii_lowercase() || c.is_ascii_digit() || c == '-'));
        assert!(!n.starts_with('-') && !n.ends_with('-'));
    }
    assert_eq!(validate_dns1123("ÜBER_name").unwrap().name(), "ber-name");
}
