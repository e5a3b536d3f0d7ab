use helm_forge::{
    build_chart_yaml, build_values_schema, default_yaml_value, generate_configmap_template,
    generate_deployment_template, generate_deployment_test, generate_helpers_tpl,
    generate_hpa_template, generate_networkpolicy_template, generate_pdb_template,
    generate_podmonitor_template, generate_prometheusrule_template, generate_secret_template,
    generate_service_template, generate_serviceaccount_template, generate_servicemonitor_template,
    generate_values_yaml, generate_values_yaml_with_config, iac_type_to_json_schema,
    AttributeFilter, DefaultAttributeFilter, GenerationStage, HelmConfig, IacAttribute,
    IacResource, IacType, JsonValue,
};
use serde_json::Value;

fn attr(name: &str, iac_type: IacType) -> IacAttribute {
    IacAttribute {
        canonical_name: name.replace('-', "_"),
        description: String::new(),
        iac_type,
        required: false,
        computed: false,
        sensitive: false,
        default_value: None,
    }
}

fn test_resource(name: &str) -> IacResource {
    let mut n = attr("name", IacType::String);
    n.required = true;
    n.description = "The resource name".into();
    let mut v = attr("value", IacType::String);
    v.required = true;
    v.sensitive = true;
    v.description = "The resource value".into();
    let mut t = attr("tags", IacType::List(Box::new(IacType::String)));
    t.description = "Resource tags".into();
    IacResource {
        name: name.to_string(),
        description: format!("{name} test resource"),
        category: "test".to_string(),
        attributes: vec![n, v, t],
    }
}

fn test_resource_with_type(name: &str, attr_name: &str, iac_type: IacType) -> IacResource {
    let mut a = attr(attr_name, iac_type);
    a.required = true;
    IacResource {
        name: name.to_string(),
        description: format!("{name} test resource"),
        category: "test".to_string(),
        attributes: vec![a],
    }
}

fn required(mut a: IacAttribute) -> IacAttribute {
    a.required = true;
    a
}

fn at<'a>(v: &'a JsonValue, path: &[&str]) -> &'a JsonValue {
    let mut cur = v;
    for k in path {
        cur = cur.get(k).unwrap_or_else(|| panic!("missing key {k}"));
    }
    cur
}

fn str_at<'a>(v: &'a JsonValue, path: &[&str]) -> &'a str {
    at(v, path).as_str().expect("string value")
}

fn keys(v: &JsonValue) -> Vec<&str> {
    match v {
        JsonValue::Object(entries) => entries.iter().map(|(k, _)| k.as_str()).collect(),
        _ => panic!("not an object"),
    }
}

fn parse_yaml(s: &str) -> Value {
    serde_yaml_ng::from_str(s).expect("must produce valid YAML")
}

// ── Templates ───────────────────────────────────────────────────────────

#[test]
fn helpers_contains_chart_name_and_all_delegates() {
    let resource = test_resource("static_secret");
    let tpl = generate_helpers_tpl(&resource);
    assert!(tpl.contains("static-secret.name"));
    assert!(tpl.contains("static-secret.fullname"));
    assert!(tpl.contains("static-secret.labels"));
    assert!(tpl.contains("static-secret.selectorLabels"));
    assert!(tpl.contains("pleme-lib.name"));
    assert!(tpl.contains("pleme-lib.fullname"));
    assert!(tpl.contains("pleme-lib.labels"));
    assert!(tpl.contains("pleme-lib.selectorLabels"));
}

#[test]
fn all_delegate_templates_reference_pleme_lib() {
    assert!(generate_deployment_template().contains("pleme-lib.deployment"));
    assert!(generate_service_template().contains("pleme-lib.service"));
    assert!(generate_serviceaccount_template().contains("pleme-lib.serviceaccount"));
    assert!(generate_servicemonitor_template().contains("pleme-lib.servicemonitor"));
    assert!(generate_networkpolicy_template().contains("pleme-lib.networkpolicy"));
    assert!(generate_pdb_template().contains("pleme-lib.pdb"));
    assert!(generate_hpa_template().contains("pleme-lib.hpa"));
    assert!(generate_podmonitor_template().contains("pleme-lib.podmonitor"));
}

#[test]
fn configmap_includes_non_sensitive_attrs() {
    let resource = test_resource("static_secret");
    let tpl = generate_configmap_template(&resource);
    assert!(tpl.contains("ConfigMap"));
    assert!(tpl.contains(".Values.config"));
}

#[test]
fn secret_includes_sensitive_attrs() {
    let resource = test_resource("static_secret");
    let tpl = generate_secret_template(&resource);
    assert!(tpl.contains("Secret"));
    assert!(tpl.contains(".Values.secrets"));
}

#[test]
fn delegate_template_exact_text() {
    assert_eq!(
        generate_deployment_template(),
        "{{- include \"pleme-lib.deployment\" . }}\n"
    );
}

#[test]
fn helpers_exact_text() {
    let tpl = generate_helpers_tpl(&test_resource("my_res"));
    let mut expected = String::from("{{/*\nHelpers for my-res — delegates to pleme-lib.\n*/}}\n\n");
    let pairs = [
        ("name", "pleme-lib.name"),
        ("fullname", "pleme-lib.fullname"),
        ("labels", "pleme-lib.labels"),
        ("selectorLabels", "pleme-lib.selectorLabels"),
    ];
    for (i, (h, l)) in pairs.iter().enumerate() {
        expected.push_str(&format!(
            "{{{{- define \"my-res.{h}\" -}}}}\n{{{{- include \"{l}\" . -}}}}\n{{{{- end -}}}}\n"
        ));
        if i + 1 < pairs.len() {
            expected.push('\n');
        }
    }
    assert_eq!(tpl, expected);
}

#[test]
fn configmap_exact_text() {
    let tpl = generate_configmap_template(&test_resource("my_res"));
    assert_eq!(
        tpl,
        "{{- if .Values.config }}\napiVersion: v1\nkind: ConfigMap\nmetadata:\n  name: {{ include \"my-res.fullname\" . }}\n  labels:\n    {{- include \"my-res.labels\" . | nindent 4 }}\ndata:\n  name: {{ .Values.config.name | quote }}\n  tags: {{ .Values.config.tags | toJson | quote }}\n{{- end }}\n"
    );
}

#[test]
fn secret_exact_text_with_hyphenated_key() {
    let mut r = test_resource_with_type("s", "api_key", IacType::String);
    r.attributes[0].sensitive = true;
    assert_eq!(
        generate_secret_template(&r),
        "{{- if .Values.secrets }}\napiVersion: v1\nkind: Secret\nmetadata:\n  name: {{ include \"s.fullname\" . }}\n  labels:\n    {{- include \"s.labels\" . | nindent 4 }}\ntype: Opaque\nstringData:\n  api-key: {{ .Values.secrets.api_key | quote }}\n{{- end }}\n"
    );
}

#[test]
fn templates_have_balanced_braces() {
    let resource = test_resource("test_res");
    for tpl in [
        generate_helpers_tpl(&resource),
        generate_configmap_template(&resource),
        generate_secret_template(&resource),
        generate_prometheusrule_template(&resource),
        generate_deployment_template(),
    ] {
        assert_eq!(tpl.matches("{{").count(), tpl.matches("}}").count());
        assert!(!tpl.contains("{{{"));
        assert!(!tpl.contains("}}}"));
    }
}

#[test]
fn configmap_keys_use_hyphens_not_underscores() {
    let resource = test_resource("key_test");
    let tpl = generate_configmap_template(&resource);
    if !tpl.is_empty() {
        for line in tpl.lines() {
            if line.starts_with("  ") && line.contains("| quote") {
                let key = line.trim().split(':').next().unwrap();
                assert!(!key.contains('_'), "configmap key should use hyphens: {key}");
            }
        }
    }
}

#[test]
fn configmap_list_attr_uses_to_json_integration() {
    let resource = test_resource("json_test");
    let tpl = generate_configmap_template(&resource);
    assert!(
        tpl.contains("| toJson | quote"),
        "list attribute must use toJson | quote in configmap"
    );
}

#[test]
fn configmap_string_attr_uses_plain_quote_integration() {
    let resource = test_resource("json_test");
    let tpl = generate_configmap_template(&resource);
    let name_line = tpl
        .lines()
        .find(|l| l.contains(".Values.config.name"))
        .expect("should have name config line");
    assert!(
        name_line.contains("| quote") && !name_line.contains("toJson"),
        "string attribute must use plain | quote"
    );
}

#[test]
fn prometheusrule_template_valid_yaml_structure() {
    let resource = test_resource("my_svc");
    let tpl = generate_prometheusrule_template(&resource);
    assert!(tpl.contains("monitoring.coreos.com/v1"));
    assert!(tpl.contains("severity: critical"));
    assert!(tpl.contains("for: 2m"));
    assert!(tpl.starts_with("{{- if .Values.monitoring.alerting.enabled }}"));
    assert!(tpl.trim_end().ends_with("{{- end }}"));
    assert!(tpl.contains("kind: PrometheusRule"));
}

// ── Tests file ──────────────────────────────────────────────────────────

#[test]
fn generates_test_yaml() {
    let resource = test_resource("static_secret");
    let test = generate_deployment_test(&resource);
    assert!(test.contains("suite: static-secret"));
    assert!(test.contains("deployment.yaml"));
    assert!(test.contains("isKind"));
}

#[test]
fn test_file_references_correct_chart() {
    let resource = test_resource("my_resource");
    let test_yaml = generate_deployment_test(&resource);
    assert!(test_yaml.contains("suite: my-resource"));
    assert!(test_yaml.contains("templates/deployment.yaml"));
    assert!(test_yaml.contains("isKind"));
    assert!(test_yaml.contains("runAsNonRoot"));
    assert!(test_yaml.starts_with("suite: my-resource deployment tests\ntemplates:\n"));
    parse_yaml(&test_yaml);
}

// ── Attribute filter ────────────────────────────────────────────────────

#[test]
fn default_filter_separates_config_and_secrets() {
    let resource = test_resource("test");
    let filter = DefaultAttributeFilter;
    let config = filter.config_attributes(&resource);
    let secrets = filter.secret_attributes(&resource);
    assert!(!config.is_empty(), "should have config attrs");
    assert!(!secrets.is_empty(), "should have secret attrs");
    for c in &config {
        assert!(!c.sensitive, "config attr {} is sensitive", c.canonical_name);
    }
    for s in &secrets {
        assert!(s.sensitive, "secret attr {} is not sensitive", s.canonical_name);
    }
}

#[test]
fn default_filter_excludes_computed() {
    let mut resource = test_resource_with_type("test", "computed_field", IacType::String);
    resource.attributes[0].computed = true;
    let filter = DefaultAttributeFilter;
    assert!(filter.config_attributes(&resource).is_empty());
    assert!(filter.secret_attributes(&resource).is_empty());
}

#[test]
fn default_filter_empty_resource() {
    let mut resource = test_resource("empty");
    resource.attributes.clear();
    let filter = DefaultAttributeFilter;
    assert!(filter.config_attributes(&resource).is_empty());
    assert!(filter.secret_attributes(&resource).is_empty());
}

#[test]
fn default_filter_only_sensitive() {
    let mut resource = test_resource_with_type("sens", "secret_val", IacType::String);
    resource.attributes[0].sensitive = true;
    let filter = DefaultAttributeFilter;
    assert!(filter.config_attributes(&resource).is_empty());
    assert_eq!(filter.secret_attributes(&resource).len(), 1);
}

#[test]
fn default_filter_only_non_sensitive() {
    let resource = test_resource_with_type("plain", "plain_val", IacType::String);
    let filter = DefaultAttributeFilter;
    assert_eq!(filter.config_attributes(&resource).len(), 1);
    assert!(filter.secret_attributes(&resource).is_empty());
}

#[test]
fn default_filter_mixed_attributes() {
    let mut resource = test_resource("mixed");
    let mut computed = attr("output_id", IacType::String);
    computed.computed = true;
    resource.attributes.push(computed);
    let filter = DefaultAttributeFilter;
    let config = filter.config_attributes(&resource);
    let secrets = filter.secret_attributes(&resource);
    assert!(!config.iter().any(|a| a.canonical_name == "output_id"));
    assert!(!secrets.iter().any(|a| a.canonical_name == "output_id"));
    let names: Vec<&str> = config.iter().map(|a| a.canonical_name.as_str()).collect();
    assert_eq!(names, vec!["name", "tags"]);
    assert_eq!(config.len() + secrets.len(), 3);
}

#[test]
fn attribute_filter_trait_is_object_safe() {
    let filter: Box<dyn AttributeFilter> = Box::new(DefaultAttributeFilter);
    let resource = test_resource("test");
    let _ = filter.config_attributes(&resource);
    let _ = filter.secret_attributes(&resource);
}

// ── Generation stages ───────────────────────────────────────────────────

#[test]
fn fsm_walks_all_stages_in_order() {
    let mut stage = GenerationStage::Init;
    let expected = [
        GenerationStage::ChartMetadata,
        GenerationStage::Values,
        GenerationStage::Schema,
        GenerationStage::Templates,
        GenerationStage::Tests,
        GenerationStage::Done,
    ];
    for exp in &expected {
        stage = stage.next().unwrap();
        assert_eq!(stage, *exp);
    }
    assert!(stage.is_done());
    assert!(stage.next().is_none());
}

#[test]
fn fsm_all_stages_count() {
    assert_eq!(GenerationStage::ALL.len(), 7);
    for w in GenerationStage::ALL.windows(2) {
        assert_eq!(w[0].next(), Some(w[1]));
        assert!(!w[0].is_done());
    }
}

// ── Type mapping ────────────────────────────────────────────────────────

#[test]
fn string_maps_to_string() {
    let schema = iac_type_to_json_schema(&IacType::String);
    assert_eq!(str_at(&schema, &["type"]), "string");
}

#[test]
fn integer_maps_to_integer() {
    let schema = iac_type_to_json_schema(&IacType::Integer);
    assert_eq!(str_at(&schema, &["type"]), "integer");
}

#[test]
fn boolean_maps_to_boolean() {
    let schema = iac_type_to_json_schema(&IacType::Boolean);
    assert_eq!(str_at(&schema, &["type"]), "boolean");
}

#[test]
fn float_maps_to_number() {
    let schema = iac_type_to_json_schema(&IacType::Float);
    assert_eq!(str_at(&schema, &["type"]), "number");
}

#[test]
fn list_maps_to_array() {
    let schema = iac_type_to_json_schema(&IacType::List(Box::new(IacType::String)));
    assert_eq!(str_at(&schema, &["type"]), "array");
    assert_eq!(str_at(&schema, &["items", "type"]), "string");
    assert!(schema.get("uniqueItems").is_none());
}

#[test]
fn set_maps_to_unique_array() {
    let schema = iac_type_to_json_schema(&IacType::SetOf(Box::new(IacType::Integer)));
    assert_eq!(str_at(&schema, &["type"]), "array");
    assert_eq!(str_at(&schema, &["items", "type"]), "integer");
    assert_eq!(at(&schema, &["uniqueItems"]), &JsonValue::Bool(true));
}

#[test]
fn map_maps_to_object_with_additional_properties() {
    let schema = iac_type_to_json_schema(&IacType::MapOf(Box::new(IacType::String)));
    assert_eq!(str_at(&schema, &["type"]), "object");
    assert_eq!(str_at(&schema, &["additionalProperties", "type"]), "string");
}

#[test]
fn enum_maps_to_string_with_enum() {
    let schema = iac_type_to_json_schema(&IacType::Enum {
        values: vec!["a".into(), "b".into()],
        underlying: Box::new(IacType::String),
    });
    assert_eq!(str_at(&schema, &["type"]), "string");
    assert_eq!(
        at(&schema, &["enum"]),
        &JsonValue::Array(vec![JsonValue::Str("a".into()), JsonValue::Str("b".into())])
    );
}

#[test]
fn any_maps_to_empty_schema() {
    let schema = iac_type_to_json_schema(&IacType::Any);
    assert_eq!(schema, JsonValue::Object(vec![]));
}

#[test]
fn all_iac_types_produce_valid_json_schema() {
    let types: Vec<(IacType, &str)> = vec![
        (IacType::String, "string"),
        (IacType::Integer, "integer"),
        (IacType::Float, "number"),
        (IacType::Boolean, "boolean"),
        (IacType::Any, ""),
    ];
    for (iac_type, expected_type) in types {
        let schema = iac_type_to_json_schema(&iac_type);
        if !expected_type.is_empty() {
            assert_eq!(str_at(&schema, &["type"]), expected_type, "IacType schema mismatch");
        }
    }
}

#[test]
fn deeply_nested_type_produces_valid_schema() {
    let deep = IacType::List(Box::new(IacType::MapOf(Box::new(IacType::List(Box::new(
        IacType::String,
    ))))));
    let schema = iac_type_to_json_schema(&deep);
    assert_eq!(str_at(&schema, &["type"]), "array");
    assert_eq!(str_at(&schema, &["items", "type"]), "object");
    assert_eq!(str_at(&schema, &["items", "additionalProperties", "type"]), "array");
    assert_eq!(
        str_at(&schema, &["items", "additionalProperties", "items", "type"]),
        "string"
    );
}

#[test]
fn empty_enum_produces_valid_schema() {
    let schema = iac_type_to_json_schema(&IacType::Enum {
        values: vec![],
        underlying: Box::new(IacType::String),
    });
    assert_eq!(str_at(&schema, &["type"]), "string");
    assert_eq!(at(&schema, &["enum"]), &JsonValue::Array(vec![]));
}

#[test]
fn object_type_schema_with_properties_and_required() {
    let t = IacType::Object {
        name: "inner".into(),
        fields: vec![required(attr("a", IacType::Integer)), attr("b", IacType::Boolean)],
    };
    let schema = iac_type_to_json_schema(&t);
    assert_eq!(keys(&schema), vec!["type", "properties", "required"]);
    assert_eq!(str_at(&schema, &["properties", "a", "type"]), "integer");
    assert_eq!(str_at(&schema, &["properties", "b", "type"]), "boolean");
    assert_eq!(
        at(&schema, &["required"]),
        &JsonValue::Array(vec![JsonValue::Str("a".into())])
    );
    let t2 = IacType::Object {
        name: "none".into(),
        fields: vec![attr("x", IacType::String), attr("x", IacType::Integer)],
    };
    let schema2 = iac_type_to_json_schema(&t2);
    assert_eq!(keys(&schema2), vec!["type", "properties"]);
    // A repeated field name keeps one property, holding the last schema.
    assert_eq!(keys(at(&schema2, &["properties"])), vec!["x"]);
    assert_eq!(str_at(&schema2, &["properties", "x", "type"]), "integer");
}

// ── Values schema ───────────────────────────────────────────────────────

#[test]
fn generates_valid_json_schema() {
    let resource = test_resource("static_secret");
    let schema = build_values_schema(&resource);
    assert_eq!(str_at(&schema, &["type"]), "object");
    assert!(at(&schema, &["$schema"]).as_str().is_some());
    assert!(matches!(at(&schema, &["properties"]), JsonValue::Object(_)));
    assert_eq!(str_at(&schema, &["title"]), "static_secret values");
}

#[test]
fn separates_config_and_secrets() {
    let resource = test_resource("static_secret");
    let schema = build_values_schema(&resource);
    let props = at(&schema, &["properties"]);
    assert!(props.get("config").is_some());
    assert!(props.get("secrets").is_some());
}

#[test]
fn includes_pleme_lib_standard_schemas() {
    let resource = test_resource("static_secret");
    let schema = build_values_schema(&resource);
    let props = at(&schema, &["properties"]);
    for key in [
        "image", "replicaCount", "ports", "service", "resources", "monitoring", "networkPolicy",
        "pdb", "autoscaling",
    ] {
        assert!(props.get(key).is_some(), "missing {key}");
    }
}

#[test]
fn schema_includes_all_pleme_lib_sections() {
    let resource = test_resource("schema_test");
    let schema = build_values_schema(&resource);
    assert_eq!(
        keys(at(&schema, &["properties"])),
        vec![
            "config", "secrets", "image", "replicaCount", "ports", "service", "resources",
            "monitoring", "networkPolicy", "pdb", "autoscaling",
        ]
    );
}

#[test]
fn image_schema_has_pull_policy_enum() {
    let schema = build_values_schema(&test_resource("test_res"));
    let pull_policy = at(&schema, &["properties", "image", "properties", "pullPolicy"]);
    assert_eq!(str_at(pull_policy, &["type"]), "string");
    match at(pull_policy, &["enum"]) {
        JsonValue::Array(items) => assert_eq!(items.len(), 3),
        _ => panic!("enum must be an array"),
    }
}

#[test]
fn resources_schema_has_requests_and_limits() {
    let schema = build_values_schema(&test_resource("test_res"));
    let res = at(&schema, &["properties", "resources", "properties"]);
    assert!(matches!(at(res, &["requests"]), JsonValue::Object(_)));
    assert!(matches!(at(res, &["limits"]), JsonValue::Object(_)));
    assert!(matches!(at(res, &["requests", "properties", "cpu"]), JsonValue::Object(_)));
    assert!(matches!(at(res, &["limits", "properties", "memory"]), JsonValue::Object(_)));
}

#[test]
fn monitoring_schema_has_alerting_and_fields() {
    let schema = build_values_schema(&test_resource("test_res"));
    let monitoring = at(&schema, &["properties", "monitoring", "properties"]);
    for key in ["enabled", "alerting", "interval", "port", "path"] {
        assert!(matches!(at(monitoring, &[key]), JsonValue::Object(_)), "missing monitoring.{key}");
    }
    assert!(matches!(
        at(monitoring, &["alerting", "properties", "enabled"]),
        JsonValue::Object(_)
    ));
}

#[test]
fn monitoring_schema_has_alerting_section() {
    let schema = build_values_schema(&test_resource("schema_mon"));
    let monitoring = at(&schema, &["properties", "monitoring", "properties"]);
    assert!(monitoring.get("alerting").is_some());
    assert!(monitoring.get("interval").is_some());
    assert!(monitoring.get("port").is_some());
    assert!(monitoring.get("path").is_some());
}

#[test]
fn replica_count_has_integer_type_and_default() {
    let schema = build_values_schema(&test_resource("test_res"));
    assert_eq!(str_at(&schema, &["properties", "replicaCount", "type"]), "integer");
    assert_eq!(
        at(&schema, &["properties", "replicaCount", "default"]),
        &JsonValue::Number("1".into())
    );
}

#[test]
fn ports_schema_is_array_of_objects() {
    let schema = build_values_schema(&test_resource("test_res"));
    let ports = at(&schema, &["properties", "ports"]);
    assert_eq!(str_at(ports, &["type"]), "array");
    assert_eq!(str_at(ports, &["items", "type"]), "object");
    let port_props = at(ports, &["items", "properties"]);
    assert_eq!(keys(port_props), vec!["name", "containerPort", "protocol"]);
    assert_eq!(str_at(port_props, &["containerPort", "type"]), "integer");
}

#[test]
fn service_schema_has_type_enum_and_ports() {
    let schema = build_values_schema(&test_resource("test_res"));
    let service = at(&schema, &["properties", "service"]);
    assert_eq!(str_at(service, &["type"]), "object");
    let svc_type = at(service, &["properties", "type"]);
    assert_eq!(str_at(svc_type, &["type"]), "string");
    assert_eq!(
        at(svc_type, &["enum"]),
        &JsonValue::Array(vec![
            JsonValue::Str("ClusterIP".into()),
            JsonValue::Str("NodePort".into()),
            JsonValue::Str("LoadBalancer".into()),
        ])
    );
    let svc_ports = at(service, &["properties", "ports"]);
    assert_eq!(str_at(svc_ports, &["type"]), "array");
    assert_eq!(
        keys(at(svc_ports, &["items", "properties"])),
        vec!["name", "port", "targetPort", "protocol"]
    );
}

#[test]
fn schema_has_ports_and_service_sections() {
    let schema = build_values_schema(&test_resource("schema_ports"));
    let props = at(&schema, &["properties"]);
    assert_eq!(str_at(props, &["ports", "type"]), "array");
    assert_eq!(str_at(props, &["service", "type"]), "object");
    assert!(at(props, &["service", "properties"]).get("type").is_some());
    assert!(at(props, &["service", "properties"]).get("ports").is_some());
}

#[test]
fn required_string_attr_has_min_length() {
    let mut resource = test_resource("minlen_test");
    resource.attributes.clear();
    resource.attributes.push(required(attr("required_str", IacType::String)));
    resource.attributes.push(attr("optional_str", IacType::String));
    resource.attributes.push(required(attr("required_int", IacType::Integer)));
    let schema = build_values_schema(&resource);
    let config_props = at(&schema, &["properties", "config", "properties"]);
    assert_eq!(
        at(config_props, &["required_str", "minLength"]),
        &JsonValue::Number("1".into())
    );
    assert!(at(config_props, &["optional_str"]).get("minLength").is_none());
    assert!(at(config_props, &["required_int"]).get("minLength").is_none());
}

#[test]
fn required_sensitive_string_has_min_length() {
    let mut resource = test_resource("minlen_secret");
    resource.attributes.clear();
    let mut a = required(attr("api_key", IacType::String));
    a.sensitive = true;
    resource.attributes.push(a);
    let schema = build_values_schema(&resource);
    assert_eq!(
        at(&schema, &["properties", "secrets", "properties", "api_key", "minLength"]),
        &JsonValue::Number("1".into())
    );
    assert!(at(&schema, &["properties"]).get("config").is_none());
}

#[test]
fn schema_required_attributes_marked_correctly() {
    let mut resource = test_resource("req_test");
    resource.attributes.clear();
    resource.attributes.push(required(attr("required_field", IacType::String)));
    resource.attributes.push(attr("optional_field", IacType::String));
    let schema = build_values_schema(&resource);
    assert_eq!(
        at(&schema, &["properties", "config", "required"]),
        &JsonValue::Array(vec![JsonValue::Str("required_field".into())])
    );
}

#[test]
fn schema_required_string_has_min_length_integration() {
    let mut resource = test_resource("minlen_integration");
    resource.attributes.clear();
    resource.attributes.push(required(attr("name", IacType::String)));
    resource.attributes.push(attr("optional_field", IacType::String));
    let schema = build_values_schema(&resource);
    let config_props = at(&schema, &["properties", "config", "properties"]);
    assert_eq!(at(config_props, &["name", "minLength"]), &JsonValue::Number("1".into()));
    assert!(at(config_props, &["optional_field"]).get("minLength").is_none());
}

#[test]
fn attribute_schema_carries_description_and_default() {
    let mut resource = test_resource("d");
    resource.attributes.clear();
    let mut a = attr("level", IacType::Integer);
    a.description = "How loud".into();
    a.default_value = Some(JsonValue::Number("3".into()));
    resource.attributes.push(a);
    let schema = build_values_schema(&resource);
    let level = at(&schema, &["properties", "config", "properties", "level"]);
    assert_eq!(keys(level), vec!["type", "description", "default"]);
    assert_eq!(str_at(level, &["description"]), "How loud");
    assert_eq!(at(level, &["default"]), &JsonValue::Number("3".into()));
}

// ── values.yaml ─────────────────────────────────────────────────────────

#[test]
fn generates_values_with_config_and_secrets() {
    let resource = test_resource("static_secret");
    let yaml = generate_values_yaml(&resource);
    assert!(yaml.contains("config:"));
    assert!(yaml.contains("secrets:"));
    assert!(yaml.contains("resources:"));
    assert!(yaml.contains("monitoring:"));
    assert!(yaml.contains("pdb:"));
    assert!(yaml.contains("autoscaling:"));
}

#[test]
fn respects_custom_resource_limits() {
    let resource = test_resource("static_secret");
    let config = HelmConfig {
        cpu_request: "100m".into(),
        memory_request: "128Mi".into(),
        cpu_limit: "500m".into(),
        memory_limit: "512Mi".into(),
        ..HelmConfig::default()
    };
    let yaml = generate_values_yaml_with_config(&resource, &config);
    assert!(yaml.contains("cpu: 100m"));
    assert!(yaml.contains("memory: 128Mi"));
    assert!(yaml.contains("cpu: 500m"));
    assert!(yaml.contains("memory: 512Mi"));
}

#[test]
fn resource_with_only_computed_attributes() {
    let mut resource = test_resource_with_type("computed", "output_id", IacType::String);
    resource.attributes[0].computed = true;
    let values = generate_values_yaml(&resource);
    assert!(!values.contains("config:"), "computed attrs should not appear in config");
    assert!(!values.contains("secrets:"), "computed attrs should not appear in secrets");
    let configmap = generate_configmap_template(&resource);
    assert!(configmap.is_empty(), "no configmap for computed-only resource");
    let secret = generate_secret_template(&resource);
    assert!(secret.is_empty(), "no secret for computed-only resource");
}

#[test]
fn resource_with_only_sensitive_attributes() {
    let mut resource = test_resource_with_type("all_secret", "api_key", IacType::String);
    resource.attributes[0].sensitive = true;
    let values = generate_values_yaml(&resource);
    assert!(!values.contains("config:"), "sensitive-only should have no config section");
    assert!(values.contains("secrets:"), "sensitive-only should have secrets section");
    let configmap = generate_configmap_template(&resource);
    assert!(configmap.is_empty());
    let secret = generate_secret_template(&resource);
    assert!(!secret.is_empty());
    assert!(secret.contains("api-key"));
}

#[test]
fn resource_with_only_non_sensitive_attributes() {
    let resource = test_resource_with_type("all_config", "setting", IacType::String);
    let values = generate_values_yaml(&resource);
    assert!(values.contains("config:"));
    assert!(!values.contains("secrets:"));
    let configmap = generate_configmap_template(&resource);
    assert!(!configmap.is_empty());
    let secret = generate_secret_template(&resource);
    assert!(secret.is_empty());
}

#[test]
fn all_iac_types_produce_valid_yaml_defaults() {
    let types: Vec<IacType> = vec![
        IacType::String,
        IacType::Integer,
        IacType::Float,
        IacType::Boolean,
        IacType::List(Box::new(IacType::String)),
        IacType::SetOf(Box::new(IacType::Integer)),
        IacType::MapOf(Box::new(IacType::String)),
        IacType::Any,
    ];
    for iac_type in types {
        let resource = test_resource_with_type("typed", "field", iac_type);
        let yaml = generate_values_yaml(&resource);
        let parsed = parse_yaml(&yaml);
        assert!(parsed["config"].is_object(), "config section should exist for non-sensitive attr");
    }
}

#[test]
fn enum_default_value_in_values_yaml() {
    let mut resource = test_resource("enum_test");
    resource.attributes.clear();
    resource.attributes.push(attr(
        "mode",
        IacType::Enum {
            values: vec!["fast".into(), "slow".into()],
            underlying: Box::new(IacType::String),
        },
    ));
    let yaml = generate_values_yaml(&resource);
    let parsed = parse_yaml(&yaml);
    let mode_val = &parsed["config"]["mode"];
    assert_eq!(mode_val.as_str().unwrap(), "fast", "enum default should be first value");
}

#[test]
fn monitoring_values_contain_new_fields() {
    let resource = test_resource("mon_test");
    let yaml = generate_values_yaml(&resource);
    assert!(yaml.contains("alerting:"));
    assert!(yaml.contains("interval:"));
    assert!(yaml.contains("port:"));
    assert!(yaml.contains("path:"));
}

#[test]
fn generated_values_have_ports_section() {
    let resource = test_resource("ports_test");
    let yaml = generate_values_yaml(&resource);
    let parsed = parse_yaml(&yaml);
    let ports = parsed["ports"].as_array().unwrap();
    assert_eq!(ports.len(), 1);
    assert_eq!(ports[0]["name"], "http");
    assert_eq!(ports[0]["containerPort"], 8080);
    assert_eq!(ports[0]["protocol"], "TCP");
}

#[test]
fn generated_values_have_service_section() {
    let resource = test_resource("svc_test");
    let yaml = generate_values_yaml(&resource);
    let parsed = parse_yaml(&yaml);
    assert_eq!(parsed["service"]["type"], "ClusterIP");
    let ports = parsed["service"]["ports"].as_array().unwrap();
    assert_eq!(ports.len(), 1);
    assert_eq!(ports[0]["port"], 80);
    assert_eq!(ports[0]["targetPort"], "http");
}

#[test]
fn default_image_repository_is_not_empty() {
    let resource = test_resource("img_test");
    let yaml = generate_values_yaml(&resource);
    let parsed = parse_yaml(&yaml);
    assert_eq!(parsed["image"]["repository"], "ghcr.io/pleme-io/placeholder");
    assert!(!parsed["image"]["repository"].as_str().unwrap().is_empty());
}

#[test]
fn all_config_fields_propagate_to_values() {
    let config = HelmConfig {
        lib_chart_name: "custom-lib".into(),
        lib_chart_version: "~2.0.0".into(),
        lib_chart_repository: "https://charts.example.com".into(),
        default_chart_version: "3.4.5".into(),
        default_app_version: "9.8.7".into(),
        replica_count: 5,
        default_image_repository: "ghcr.io/pleme-io/custom".into(),
        image_pull_policy: "IfNotPresent".into(),
        default_container_port: 9090,
        default_service_type: "NodePort".into(),
        cpu_request: "999m".into(),
        memory_request: "999Mi".into(),
        cpu_limit: "9999m".into(),
        memory_limit: "9999Mi".into(),
        monitoring_enabled: false,
        network_policy_enabled: false,
        pdb_enabled: true,
        autoscaling_enabled: true,
    };
    let resource = test_resource("test_res");
    let values = parse_yaml(&generate_values_yaml_with_config(&resource, &config));
    assert_eq!(values["resources"]["requests"]["cpu"], "999m");
    assert_eq!(values["resources"]["requests"]["memory"], "999Mi");
    assert_eq!(values["resources"]["limits"]["cpu"], "9999m");
    assert_eq!(values["resources"]["limits"]["memory"], "9999Mi");
    assert_eq!(values["replicaCount"], 5);
    assert_eq!(values["image"]["repository"], "ghcr.io/pleme-io/custom");
    assert_eq!(values["image"]["pullPolicy"], "IfNotPresent");
    assert_eq!(values["ports"].as_array().unwrap().len(), 1);
    assert_eq!(values["ports"][0]["containerPort"], 9090);
    assert_eq!(values["service"]["type"], "NodePort");
    assert_eq!(values["monitoring"]["enabled"], false);
    assert_eq!(values["monitoring"]["alerting"]["enabled"], false);
    assert_eq!(values["monitoring"]["interval"], "30s");
    assert_eq!(values["monitoring"]["port"], "metrics");
    assert_eq!(values["monitoring"]["path"], "/metrics");
    assert_eq!(values["networkPolicy"]["enabled"], false);
    assert_eq!(values["pdb"]["enabled"], true);
    assert_eq!(values["autoscaling"]["enabled"], true);

    let chart = build_chart_yaml(&resource, "test", &config);
    assert_eq!(chart.dependencies[0].name, "custom-lib");
    assert_eq!(chart.dependencies[0].version, "~2.0.0");
    assert_eq!(chart.dependencies[0].repository, "https://charts.example.com");
    assert_eq!(chart.version, "3.4.5");
    assert_eq!(chart.app_version, "9.8.7");
}

#[test]
fn default_yaml_values_for_every_type() {
    assert_eq!(default_yaml_value(&IacType::String), "\"\"");
    assert_eq!(default_yaml_value(&IacType::Integer), "0");
    assert_eq!(default_yaml_value(&IacType::Float), "0.0");
    assert_eq!(default_yaml_value(&IacType::Numeric), "0");
    assert_eq!(default_yaml_value(&IacType::Boolean), "false");
    assert_eq!(default_yaml_value(&IacType::List(Box::new(IacType::Any))), "[]");
    assert_eq!(default_yaml_value(&IacType::SetOf(Box::new(IacType::Any))), "[]");
    assert_eq!(default_yaml_value(&IacType::MapOf(Box::new(IacType::Any))), "{}");
    assert_eq!(
        default_yaml_value(&IacType::Object { name: "o".into(), fields: vec![] }),
        "{}"
    );
    assert_eq!(
        default_yaml_value(&IacType::Enum { values: vec![], underlying: Box::new(IacType::String) }),
        "\"\""
    );
    assert_eq!(default_yaml_value(&IacType::Any), "\"\"");
}

#[test]
fn values_yaml_exact_sections() {
    let mut resource = test_resource_with_type("r", "flag", IacType::Boolean);
    resource.attributes[0].description = "A flag".into();
    let yaml = generate_values_yaml(&resource);
    assert!(yaml.starts_with(
        "# values.yaml for r\n\nimage:\n  repository: ghcr.io/pleme-io/placeholder\n  tag: latest\n  pullPolicy: Always\n\nreplicaCount: 1\n\n"
    ));
    assert!(yaml.contains(
        "# Resource configuration (non-sensitive)\nconfig:\n  # A flag\n  flag: false\n\nresources:\n"
    ));
    assert!(yaml.ends_with("\n\npdb:\n  enabled: false\n\nautoscaling:\n  enabled: false\n"));
    assert!(!yaml.ends_with("\n\n"));
}

// ── Chart.yaml data ─────────────────────────────────────────────────────

#[test]
fn respects_custom_config() {
    let resource = test_resource("static_secret");
    let config = HelmConfig {
        lib_chart_version: "~0.5.0".into(),
        default_chart_version: "1.2.3".into(),
        ..HelmConfig::default()
    };
    let chart = build_chart_yaml(&resource, "akeyless", &config);
    assert_eq!(chart.version, "1.2.3");
    assert_eq!(chart.dependencies[0].version, "~0.5.0");
}

#[test]
fn build_returns_inspectable_struct() {
    let resource = test_resource("static_secret");
    let chart = build_chart_yaml(&resource, "akeyless", &HelmConfig::default());
    assert_eq!(chart.api_version, "v2");
    assert_eq!(chart.name, "static-secret");
    assert_eq!(chart.chart_type, "application");
    assert_eq!(chart.dependencies.len(), 1);
    assert!(chart.annotations.iter().any(|(k, _)| k == "pleme.io/generated"));
}

#[test]
fn chart_description_and_annotations() {
    let mut resource = test_resource("x_y");
    let chart = build_chart_yaml(&resource, "prov", &HelmConfig::default());
    assert_eq!(chart.description, "x_y test resource");
    let ann: Vec<(&str, &str)> = chart
        .annotations
        .iter()
        .map(|(k, v)| (k.as_str(), v.as_str()))
        .collect();
    assert_eq!(
        ann,
        vec![
            ("pleme.io/category", "test"),
            ("pleme.io/generated", "true"),
            ("pleme.io/provider", "prov"),
        ]
    );
    resource.description.clear();
    let chart2 = build_chart_yaml(&resource, "prov", &HelmConfig::default());
    assert_eq!(chart2.description, "Helm chart for x_y");
}

#[test]
fn very_long_resource_name() {
    let long_name = "this_is_a_very_long_resource_name_that_tests_kebab_case_conversion";
    let resource = test_resource(long_name);
    let chart = build_chart_yaml(&resource, "test", &HelmConfig::default());
    assert_eq!(
        chart.name,
        "this-is-a-very-long-resource-name-that-tests-kebab-case-conversion"
    );
}

#[test]
fn configmap_map_attr_uses_plain_quote() {
    let resource = test_resource_with_type("m", "labels", IacType::MapOf(Box::new(IacType::String)));
    let mut r = resource;
    r.attributes[0].required = false;
    let tpl = generate_configmap_template(&r);
    assert!(tpl.contains("  labels: {{ .Values.config.labels | quote }}\n"));
    assert!(!tpl.contains("toJson"));
}
