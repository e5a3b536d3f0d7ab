use helm_forge::helm_ast::{delimiters, render, HelmNode, PipeFilter, Trim};

#[test]
fn render_include() {
    let node = HelmNode::include_node("pleme-lib.deployment", ".");
    let s = render(&[node]);
    assert_eq!(s, "{{- include \"pleme-lib.deployment\" . }}");
}

#[test]
fn render_value_ref() {
    let node = HelmNode::value_ref("config.name");
    let s = render(&[node]);
    assert_eq!(s, "{{ .Values.config.name }}");
}

#[test]
fn render_value_quoted() {
    let node = HelmNode::value_quoted("secrets.api_key");
    let s = render(&[node]);
    assert_eq!(s, "{{ .Values.secrets.api_key | quote }}");
}

#[test]
fn render_if_block() {
    let node = HelmNode::if_values("config", vec![HelmNode::text("hello\n")]);
    let s = render(&[node]);
    assert!(s.contains("{{- if .Values.config }}"));
    assert!(s.contains("hello"));
    assert!(s.contains("{{- end }}"));
}

#[test]
fn render_if_else() {
    let node = HelmNode::If {
        condition: ".Values.enabled".into(),
        body: vec![HelmNode::text("yes\n")],
        else_body: Some(vec![HelmNode::text("no\n")]),
    };
    let s = render(&[node]);
    assert!(s.contains("{{- if .Values.enabled }}"));
    assert!(s.contains("yes"));
    assert!(s.contains("{{- else }}"));
    assert!(s.contains("no"));
    assert!(s.contains("{{- end }}"));
}

#[test]
fn render_define() {
    let node = HelmNode::Define {
        name: "mychart.name".into(),
        body: vec![HelmNode::include_node("pleme-lib.name", ".")],
    };
    let s = render(&[node]);
    assert!(s.contains("{{- define \"mychart.name\" -}}"));
    assert!(s.contains("pleme-lib.name"));
    assert!(s.contains("{{- end -}}"));
}

#[test]
fn render_comment() {
    let node = HelmNode::Comment("This is a comment".into());
    let s = render(&[node]);
    assert_eq!(s, "{{/* This is a comment */}}");
}

#[test]
fn render_range() {
    let node = HelmNode::Range {
        over: ".Values.items".into(),
        body: vec![HelmNode::text("- item\n")],
    };
    let s = render(&[node]);
    assert!(s.contains("{{- range .Values.items }}"));
    assert!(s.contains("- item"));
    assert!(s.contains("{{- end }}"));
}

#[test]
fn render_pipeline_filters() {
    let node = HelmNode::ValueRef {
        path: ".Values.data".into(),
        pipeline: vec![PipeFilter::ToYaml, PipeFilter::Nindent(4)],
        trim: Trim::Left,
    };
    let s = render(&[node]);
    assert_eq!(s, "{{- .Values.data | toYaml | nindent 4 }}");
}

#[test]
fn trim_modes() {
    assert_eq!(delimiters(Trim::NoTrim), ("{{", "}}"));
    assert_eq!(delimiters(Trim::Left), ("{{-", "}}"));
    assert_eq!(delimiters(Trim::Right), ("{{", "-}}"));
    assert_eq!(delimiters(Trim::Both), ("{{-", "-}}"));
}

#[test]
fn display_trait() {
    let node = HelmNode::include_node("pleme-lib.service", ".");
    assert_eq!(node.to_text(), "{{- include \"pleme-lib.service\" . }}");
}

#[test]
fn no_triple_braces_in_any_render() {
    let nodes = vec![
        HelmNode::include_node("chart.name", "."),
        HelmNode::value_ref("config.key"),
        HelmNode::value_quoted("secrets.val"),
        HelmNode::if_values("enabled", vec![HelmNode::text("ok\n")]),
        HelmNode::Comment("comment".into()),
        HelmNode::Define {
            name: "helper".into(),
            body: vec![HelmNode::text("body")],
        },
    ];
    let s = render(&nodes);
    assert!(!s.contains("{{{"), "triple open braces found");
    assert!(!s.contains("}}}"), "triple close braces found");
}

#[test]
fn complex_template_composition() {
    let nodes = vec![HelmNode::if_values(
        "config",
        vec![
            HelmNode::text("apiVersion: v1\n"),
            HelmNode::text("kind: ConfigMap\n"),
            HelmNode::text("metadata:\n"),
            HelmNode::text("  name: "),
            HelmNode::Include {
                template: "mychart.fullname".into(),
                context: ".".into(),
                trim: Trim::NoTrim,
            },
            HelmNode::text("\n"),
            HelmNode::text("data:\n"),
            HelmNode::text("  key: "),
            HelmNode::value_quoted("config.key"),
            HelmNode::text("\n"),
        ],
    )];
    let s = render(&nodes);
    assert!(s.contains("kind: ConfigMap"));
    assert!(s.contains("{{ include \"mychart.fullname\" . }}"));
    assert!(s.contains("{{ .Values.config.key | quote }}"));
    assert!(s.contains("{{- end }}"));
}

// ── Exact renderings and the concatenation law on concrete values ──────

#[test]
fn render_exact_block_forms() {
    let node = HelmNode::If {
        condition: ".Values.on".into(),
        body: vec![HelmNode::text("a\n")],
        else_body: Some(vec![HelmNode::text("b\n")]),
    };
    assert_eq!(
        render(&[node]),
        "{{- if .Values.on }}\na\n{{- else }}\nb\n{{- end }}"
    );
    let d = HelmNode::Define {
        name: "x".into(),
        body: vec![],
    };
    assert_eq!(render(&[d]), "{{- define \"x\" -}}\n{{- end -}}");
}

#[test]
fn render_every_filter() {
    let node = HelmNode::ValueRef {
        path: "p".into(),
        pipeline: vec![
            PipeFilter::Quote,
            PipeFilter::Indent(12),
            PipeFilter::Upper,
            PipeFilter::Lower,
            PipeFilter::Default("d".into()),
            PipeFilter::Trim,
            PipeFilter::Nindent(0),
        ],
        trim: Trim::Both,
    };
    assert_eq!(
        render(&[node]),
        "{{- p | quote | indent 12 | upper | lower | default \"d\" | trim | nindent 0 -}}"
    );
    let right = HelmNode::ValueRef {
        path: "q".into(),
        pipeline: vec![],
        trim: Trim::Right,
    };
    assert_eq!(render(&[right]), "{{ q -}}");
}

#[test]
fn render_of_concatenation_is_concatenation_of_renders() {
    let a = vec![HelmNode::text("x"), HelmNode::value_ref("a")];
    let b = vec![HelmNode::Comment("c".into())];
    let ab = vec![
        HelmNode::text("x"),
        HelmNode::value_ref("a"),
        HelmNode::Comment("c".into()),
    ];
    assert_eq!(render(&ab), format!("{}{}", render(&a), render(&b)));
    assert_eq!(render(&[]), "");
}

#[test]
fn adjacent_actions_never_form_triple_braces() {
    let mut nodes = Vec::new();
    for trim in [Trim::NoTrim, Trim::Left, Trim::Right, Trim::Both] {
        nodes.push(HelmNode::Include {
            template: "t".into(),
            context: ".".into(),
            trim,
        });
        nodes.push(HelmNode::ValueRef {
            path: ".Values.x".into(),
            pipeline: vec![PipeFilter::ToYaml, PipeFilter::Nindent(4)],
            trim,
        });
    }
    nodes.push(HelmNode::If {
        condition: ".Values.a".into(),
        body: vec![HelmNode::value_ref("b")],
        else_body: Some(vec![HelmNode::Range {
            over: ".Values.c".into(),
            body: vec![HelmNode::Comment("n".into())],
        }]),
    });
    nodes.push(HelmNode::Define {
        name: "d".into(),
        body: vec![HelmNode::include_node("e", ".")],
    });
    let s = render(&nodes);
    assert!(!s.contains("{{{"));
    assert!(!s.contains("}}}"));
    assert!(s.contains("}}{{"));
    assert_eq!(s.matches("{{").count(), s.matches("}}").count());
    assert_eq!(s.matches("{{").count(), 18);
}
