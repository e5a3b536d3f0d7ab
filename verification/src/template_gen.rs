//! Helm templates: the chart helpers, the templates that delegate to
//! pleme-lib, and the ConfigMap and Secret for a resource's attributes.

use vstd::prelude::*;

use crate::ir::{IacAttribute, IacResource, IacType};
use crate::naming::{kebab, to_kebab_case};
use crate::text::{
    brace_free, brace_safe, closes, lemma_brace_free_concat, lemma_brace_free_safe, lemma_counts_free,
    lemma_counts_join, lemma_free_open, lemma_lone_brace, lemma_open_close, lemma_open_then, lemma_safe_free_counts,
    lemma_safe_safe_counts, lemma_safe_then_free, lemma_then_close, opens, push_char, well_braced, contains_text,
    lemma_contains_extend, lemma_contains_middle, lemma_contains_widen,
};
use crate::traits::{
    config_attrs, derefs, is_config_attr, is_secret_attr, lemma_select_keeps, secret_attrs, select_attrs,
    AttributeFilter, DefaultAttributeFilter,
};

verus! {

/// The single-line template that includes the pleme-lib template `name`.
pub open spec fn delegate_text(name: Seq<char>) -> Seq<char> {
    "{{- include \"pleme-lib."@ + name + "\" . }}\n"@
}

/// A template that delegates to the pleme-lib named template `template_name`.
pub fn pleme_lib_delegate(template_name: &str) -> (res: String)
    ensures
        res@ == delegate_text(template_name@),
{
    let mut s = String::from_str("{{- include \"pleme-lib.");
    s.append(template_name);
    s.append("\" . }}\n");
    s
}

/// `deployment.yaml`, delegating to pleme-lib.
pub fn generate_deployment_template() -> (res: String)
    ensures
        res@ == delegate_text("deployment"@),
{
    pleme_lib_delegate("deployment")
}

/// `service.yaml`, delegating to pleme-lib.
pub fn generate_service_template() -> (res: String)
    ensures
        res@ == delegate_text("service"@),
{
    pleme_lib_delegate("service")
}

/// `serviceaccount.yaml`, delegating to pleme-lib.
pub fn generate_serviceaccount_template() -> (res: String)
    ensures
        res@ == delegate_text("serviceaccount"@),
{
    pleme_lib_delegate("serviceaccount")
}

/// `servicemonitor.yaml`, delegating to pleme-lib.
pub fn generate_servicemonitor_template() -> (res: String)
    ensures
        res@ == delegate_text("servicemonitor"@),
{
    pleme_lib_delegate("servicemonitor")
}

/// `networkpolicy.yaml`, delegating to pleme-lib.
pub fn generate_networkpolicy_template() -> (res: String)
    ensures
        res@ == delegate_text("networkpolicy"@),
{
    pleme_lib_delegate("networkpolicy")
}

/// `pdb.yaml`, delegating to pleme-lib.
pub fn generate_pdb_template() -> (res: String)
    ensures
        res@ == delegate_text("pdb"@),
{
    pleme_lib_delegate("pdb")
}

/// `hpa.yaml`, delegating to pleme-lib.
pub fn generate_hpa_template() -> (res: String)
    ensures
        res@ == delegate_text("hpa"@),
{
    pleme_lib_delegate("hpa")
}

/// `podmonitor.yaml`, delegating to pleme-lib.
pub fn generate_podmonitor_template() -> (res: String)
    ensures
        res@ == delegate_text("podmonitor"@),
{
    pleme_lib_delegate("podmonitor")
}

/// One helper definition of chart `n` delegating to `lib_helper`, followed by
/// `tail`.
pub open spec fn helper_block(n: Seq<char>, helper: Seq<char>, lib_helper: Seq<char>, tail: Seq<char>) -> Seq<char> {
    "{{- define \""@ + n + "."@ + helper + "\" -}}\n"@ + "{{- include \""@ + lib_helper
        + "\" . -}}\n"@ + "{{- end -}}\n"@ + tail
}

/// `_helpers.tpl` of chart `n`: a comment, then `name`, `fullname`, `labels`
/// and `selectorLabels` defined as the pleme-lib helpers of the same name,
/// separated by blank lines and ending with a single newline.
pub open spec fn helpers_text(n: Seq<char>) -> Seq<char> {
    "{{/*\n"@ + "Helpers for "@ + n + " — delegates to pleme-lib.\n"@ + "*/}}\n\n"@
        + helper_block(n, "name"@, "pleme-lib.name"@, "\n"@)
        + helper_block(n, "fullname"@, "pleme-lib.fullname"@, "\n"@)
        + helper_block(n, "labels"@, "pleme-lib.labels"@, "\n"@)
        + helper_block(n, "selectorLabels"@, "pleme-lib.selectorLabels"@, ""@)
}

fn push_helper_block(s: &mut String, n: &str, helper: &str, lib_helper: &str, tail: &str)
    ensures
        final(s)@ == old(s)@ + helper_block(n@, helper@, lib_helper@, tail@),
{
    let ghost start = s@;
    s.append("{{- define \"");
    s.append(n);
    s.append(".");
    s.append(helper);
    s.append("\" -}}\n");
    s.append("{{- include \"");
    s.append(lib_helper);
    s.append("\" . -}}\n");
    s.append("{{- end -}}\n");
    s.append(tail);
    assert(s@ =~= start + helper_block(n@, helper@, lib_helper@, tail@));
}

/// `_helpers.tpl`: the chart's helpers, each delegating to pleme-lib.
pub fn generate_helpers_tpl(resource: &IacResource) -> (res: String)
    ensures
        res@ == helpers_text(kebab(resource.name@)),
{
    let n = to_kebab_case(resource.name.as_str());
    let mut s = String::from_str("{{/*\n");
    s.append("Helpers for ");
    s.append(n.as_str());
    s.append(" — delegates to pleme-lib.\n");
    s.append("*/}}\n\n");
    push_helper_block(&mut s, n.as_str(), "name", "pleme-lib.name", "\n");
    push_helper_block(&mut s, n.as_str(), "fullname", "pleme-lib.fullname", "\n");
    push_helper_block(&mut s, n.as_str(), "labels", "pleme-lib.labels", "\n");
    push_helper_block(&mut s, n.as_str(), "selectorLabels", "pleme-lib.selectorLabels", "");
    assert(s@ =~= helpers_text(n@));
    s
}

/// A list or set value, rendered with `toJson` before quoting.
pub open spec fn is_structured(t: IacType) -> bool {
    match t {
        IacType::List(_) | IacType::SetOf(_) => true,
        _ => false,
    }
}

/// The data line of one attribute: its kebab-case key and the quoted value
/// read from `.Values.<section>.<canonical name>`.
pub open spec fn data_line(section: Seq<char>, a: IacAttribute) -> Seq<char> {
    "  "@ + kebab(a.canonical_name@) + ": {{ .Values."@ + section + "."@ + a.canonical_name@ + (if is_structured(a.iac_type) {
        " | toJson | quote"@
    } else {
        " | quote"@
    }) + " }}\n"@
}

/// The data lines of a sequence of attributes.
pub open spec fn data_lines(section: Seq<char>, attrs: Seq<IacAttribute>) -> Seq<char>
    decreases attrs.len(),
{
    if attrs.len() == 0 {
        Seq::empty()
    } else {
        data_lines(section, attrs.drop_last()) + data_line(section, attrs.last())
    }
}

/// The lines that open the ConfigMap (or Secret) of chart `n`, up to and
/// including the data key.
pub open spec fn object_header(n: Seq<char>, secret: bool) -> Seq<char> {
    (if secret {
        "{{- if .Values.secrets }}\n"@
    } else {
        "{{- if .Values.config }}\n"@
    }) + "apiVersion: v1\n"@ + (if secret {
        "kind: Secret\n"@
    } else {
        "kind: ConfigMap\n"@
    }) + "metadata:\n"@ + "  name: {{ include \""@ + n + ".fullname\" . }}\n"@ + "  labels:\n"@
        + "    {{- include \""@ + n + ".labels\" . | nindent 4 }}\n"@ + (if secret {
        "type: Opaque\nstringData:\n"@
    } else {
        "data:\n"@
    })
}

/// The ConfigMap (or Secret) template of chart `n` for the attributes `attrs`;
/// empty when there are none.
pub open spec fn object_text(n: Seq<char>, attrs: Seq<IacAttribute>, secret: bool) -> Seq<char> {
    if attrs.len() == 0 {
        Seq::empty()
    } else {
        object_header(n, secret) + data_lines(
            if secret {
                "secrets"@
            } else {
                "config"@
            },
            attrs,
        ) + "{{- end }}\n"@
    }
}

/// `s` with every `_` replaced by `-`.
fn underscores_to_hyphens(s: &str) -> (res: String)
    ensures
        res@ == kebab(s@),
{
    let n = s.unicode_len();
    let mut out = String::new();
    let mut i: usize = 0;
    while i < n
        invariant
            n == s@.len(),
            0 <= i <= n,
            out@ == kebab(s@.take(i as int)),
        decreases n - i,
    {
        let c = s.get_char(i);
        assert(kebab(s@.take(i + 1)) =~= kebab(s@.take(i as int)).push(
            if c == '_' { '-' } else { c },
        ));
        if c == '_' {
            push_char(&mut out, '-');
        } else {
            push_char(&mut out, c);
        }
        i = i + 1;
    }
    assert(s@.take(n as int) =~= s@);
    out
}

/// Whether a type is rendered with `toJson` (lists and sets).
fn structured(t: &IacType) -> (res: bool)
    ensures
        res == is_structured(*t),
{
    match t {
        IacType::List(_) | IacType::SetOf(_) => true,
        _ => false,
    }
}

/// The ConfigMap (or Secret) template of a resource for the given attributes.
fn object_template(resource: &IacResource, attrs: &Vec<&IacAttribute>, secret: bool) -> (res: String)
    ensures
        res@ == object_text(kebab(resource.name@), derefs(attrs@), secret),
{
    if attrs.len() == 0 {
        return String::new();
    }
    let n = to_kebab_case(resource.name.as_str());
    let ghost section = if secret {
        "secrets"@
    } else {
        "config"@
    };
    let mut s = String::new();
    if secret {
        s.append("{{- if .Values.secrets }}\n");
    } else {
        s.append("{{- if .Values.config }}\n");
    }
    s.append("apiVersion: v1\n");
    if secret {
        s.append("kind: Secret\n");
    } else {
        s.append("kind: ConfigMap\n");
    }
    s.append("metadata:\n");
    s.append("  name: {{ include \"");
    s.append(n.as_str());
    s.append(".fullname\" . }}\n");
    s.append("  labels:\n");
    s.append("    {{- include \"");
    s.append(n.as_str());
    s.append(".labels\" . | nindent 4 }}\n");
    if secret {
        s.append("type: Opaque\nstringData:\n");
    } else {
        s.append("data:\n");
    }
    let ghost header = s@;
    assert(header =~= object_header(n@, secret));
    let ghost all = derefs(attrs@);
    let sec: &str = if secret { "secrets" } else { "config" };
    let mut i: usize = 0;
    while i < attrs.len()
        invariant
            0 <= i <= attrs.len(),
            all == derefs(attrs@),
            section == (if secret { "secrets"@ } else { "config"@ }),
            sec@ == section,
            s@ == header + data_lines(section, all.take(i as int)),
        decreases attrs.len() - i,
    {
        let a = attrs[i];
        assert(all[i as int] == *a);
        assert(all.take(i + 1).drop_last() =~= all.take(i as int));
        let key = underscores_to_hyphens(a.canonical_name.as_str());
        let ghost before = s@;
        s.append("  ");
        s.append(key.as_str());
        s.append(": {{ .Values.");
        s.append(sec);
        s.append(".");
        s.append(a.canonical_name.as_str());
        if structured(&a.iac_type) {
            s.append(" | toJson | quote");
        } else {
            s.append(" | quote");
        }
        s.append(" }}\n");
        assert(s@ =~= before + data_line(section, *a));
        i = i + 1;
    }
    assert(all.take(attrs.len() as int) =~= all);
    s.append("{{- end }}\n");
    assert(s@ =~= object_text(n@, all, secret));
    s
}

/// `configmap.yaml` for the resource's config attributes: each becomes a
/// data key (underscores turned to hyphens) read from `.Values.config`.
/// Empty when the resource has no config attributes.
pub fn generate_configmap_template(resource: &IacResource) -> (res: String)
    ensures
        res@ == object_text(kebab(resource.name@), config_attrs(*resource), false),
{
    let attrs = DefaultAttributeFilter.config_attributes(resource);
    object_template(resource, &attrs, false)
}

/// `secret.yaml` for the resource's secret attributes: each becomes a
/// `stringData` key (underscores turned to hyphens) read from
/// `.Values.secrets`. Empty when the resource has no secret attributes.
pub fn generate_secret_template(resource: &IacResource) -> (res: String)
    ensures
        res@ == object_text(kebab(resource.name@), secret_attrs(*resource), true),
{
    let attrs = DefaultAttributeFilter.secret_attributes(resource);
    object_template(resource, &attrs, true)
}

/// The PrometheusRule template of chart `n`: rendered only when
/// `monitoring.alerting.enabled` is set, with one critical alert that fires
/// when the chart's workload has been down for two minutes.
pub open spec fn prometheusrule_text(n: Seq<char>) -> Seq<char> {
    "{{- if .Values.monitoring.alerting.enabled }}\n"@ + "apiVersion: monitoring.coreos.com/v1\n"@
        + "kind: PrometheusRule\n"@ + "metadata:\n"@ + "  name: {{ include \""@ + n
        + ".fullname\" . }}\n"@ + "  labels:\n"@ + "    {{- include \""@ + n
        + ".labels\" . | nindent 4 }}\n"@ + "spec:\n"@ + "  groups:\n"@ + "    - name: "@ + n
        + ".rules\n"@ + "      rules:\n"@ + "        - alert: "@ + n + "-down\n"@
        + "          expr: absent(up{job=\"{{ include \""@ + n + ".fullname\" . }}\"} == 1)\n"@
        + "          for: 2m\n"@ + "          labels:\n"@ + "            severity: critical\n"@
        + "          annotations:\n"@ + "            summary: "@ + n + " is down\n"@
        + "{{- end }}\n"@
}

/// `prometheusrule.yaml`: alerting rules for the resource's workload, rendered
/// when alerting is enabled in the values.
pub fn generate_prometheusrule_template(resource: &IacResource) -> (res: String)
    ensures
        res@ == prometheusrule_text(kebab(resource.name@)),
{
    let n = to_kebab_case(resource.name.as_str());
    let ghost start = Seq::<char>::empty();
    let mut s = String::from_str("{{- if .Values.monitoring.alerting.enabled }}\n");
    s.append("apiVersion: monitoring.coreos.com/v1\n");
    s.append("kind: PrometheusRule\n");
    s.append("metadata:\n");
    s.append("  name: {{ include \"");
    s.append(n.as_str());
    s.append(".fullname\" . }}\n");
    s.append("  labels:\n");
    s.append("    {{- include \"");
    s.append(n.as_str());
    s.append(".labels\" . | nindent 4 }}\n");
    s.append("spec:\n");
    s.append("  groups:\n");
    s.append("    - name: ");
    s.append(n.as_str());
    s.append(".rules\n");
    s.append("      rules:\n");
    s.append("        - alert: ");
    s.append(n.as_str());
    s.append("-down\n");
    s.append("          expr: absent(up{job=\"{{ include \"");
    s.append(n.as_str());
    s.append(".fullname\" . }}\"} == 1)\n");
    s.append("          for: 2m\n");
    s.append("          labels:\n");
    s.append("            severity: critical\n");
    s.append("          annotations:\n");
    s.append("            summary: ");
    s.append(n.as_str());
    s.append(" is down\n");
    s.append("{{- end }}\n");
    s
}

/// The canonical names of `attrs` hold no braces.
pub open spec fn names_brace_free(attrs: Seq<IacAttribute>) -> bool {
    forall|i: int| 0 <= i < attrs.len() ==> brace_free(#[trigger] attrs[i].canonical_name@)
}

proof fn lemma_kebab_brace_free(s: Seq<char>)
    requires
        brace_free(s),
    ensures
        brace_free(kebab(s)),
{
    assert forall|i: int| 0 <= i < kebab(s).len() implies #[trigger] kebab(s)[i] != '{' && kebab(s)[i] != '}' by {
        assert(s[i] != '{' && s[i] != '}');
    }
}

proof fn lemma_select_names(attrs: Seq<IacAttribute>, secret: bool)
    requires
        names_brace_free(attrs),
    ensures
        names_brace_free(select_attrs(attrs, secret)),
    decreases attrs.len(),
{
    if attrs.len() > 0 {
        let d = attrs.drop_last();
        assert forall|i: int| 0 <= i < d.len() implies brace_free(#[trigger] d[i].canonical_name@) by {
            assert(d[i] == attrs[i]);
        }
        lemma_select_names(d, secret);
        let r = select_attrs(d, secret);
        let a = attrs.last();
        assert(brace_free(attrs[attrs.len() - 1].canonical_name@));
        assert forall|i: int| 0 <= i < r.push(a).len() implies brace_free(#[trigger] r.push(a)[i].canonical_name@) by {
            if i < r.len() {
                assert(r.push(a)[i] == r[i]);
            }
        }
    }
}

proof fn lemma_template_literals()
    ensures
        brace_free("  "@),
        brace_safe(": {{ .Values."@),
        brace_free("."@),
        brace_free(" | toJson | quote"@),
        brace_free(" | quote"@),
        brace_safe(" }}\n"@),
        brace_free("config"@),
        brace_free("secrets"@),
        brace_safe("{{- if .Values.secrets }}\n"@),
        brace_safe("{{- if .Values.config }}\n"@),
        brace_free("apiVersion: v1\n"@),
        brace_free("kind: Secret\n"@),
        brace_free("kind: ConfigMap\n"@),
        brace_free("metadata:\n"@),
        brace_safe("  name: {{ include \""@),
        brace_safe(".fullname\" . }}\n"@),
        brace_free("  labels:\n"@),
        brace_safe("    {{- include \""@),
        brace_safe(".labels\" . | nindent 4 }}\n"@),
        brace_free("type: Opaque\nstringData:\n"@),
        brace_free("data:\n"@),
        brace_safe("{{- end }}\n"@),
{
    reveal_strlit("  ");
    reveal_strlit(": {{ .Values.");
    reveal_strlit(".");
    reveal_strlit(" | toJson | quote");
    reveal_strlit(" | quote");
    reveal_strlit(" }}\n");
    reveal_strlit("config");
    reveal_strlit("secrets");
    reveal_strlit("{{- if .Values.secrets }}\n");
    reveal_strlit("{{- if .Values.config }}\n");
    reveal_strlit("apiVersion: v1\n");
    reveal_strlit("kind: Secret\n");
    reveal_strlit("kind: ConfigMap\n");
    reveal_strlit("metadata:\n");
    reveal_strlit("  name: {{ include \"");
    reveal_strlit(".fullname\" . }}\n");
    reveal_strlit("  labels:\n");
    reveal_strlit("    {{- include \"");
    reveal_strlit(".labels\" . | nindent 4 }}\n");
    reveal_strlit("type: Opaque\nstringData:\n");
    reveal_strlit("data:\n");
    reveal_strlit("{{- end }}\n");
}

proof fn lemma_template_literal_counts()
    ensures
        opens(": {{ .Values."@) == 1 && closes(": {{ .Values."@) == 0,
        opens(" }}\n"@) == 0 && closes(" }}\n"@) == 1,
        opens("{{- if .Values.secrets }}\n"@) == 1 && closes("{{- if .Values.secrets }}\n"@) == 1,
        opens("{{- if .Values.config }}\n"@) == 1 && closes("{{- if .Values.config }}\n"@) == 1,
        opens("  name: {{ include \""@) == 1 && closes("  name: {{ include \""@) == 0,
        opens(".fullname\" . }}\n"@) == 0 && closes(".fullname\" . }}\n"@) == 1,
        opens("    {{- include \""@) == 1 && closes("    {{- include \""@) == 0,
        opens(".labels\" . | nindent 4 }}\n"@) == 0 && closes(".labels\" . | nindent 4 }}\n"@) == 1,
        opens("{{- end }}\n"@) == 1 && closes("{{- end }}\n"@) == 1,
{
    reveal_strlit(": {{ .Values.");
    reveal_strlit(": ");
    reveal_strlit(" .Values.");
    reveal_strlit("{{");
    reveal_strlit(" }}\n");
    reveal_strlit(" ");
    reveal_strlit("\n");
    reveal_strlit("}}");
    reveal_strlit("{{- if .Values.secrets }}\n");
    reveal_strlit("- if .Values.secrets ");
    reveal_strlit("{{- if .Values.config }}\n");
    reveal_strlit("- if .Values.config ");
    reveal_strlit("  name: {{ include \"");
    reveal_strlit("  name: ");
    reveal_strlit(" include \"");
    reveal_strlit(".fullname\" . }}\n");
    reveal_strlit(".fullname\" . ");
    reveal_strlit("    {{- include \"");
    reveal_strlit("    ");
    reveal_strlit("- include \"");
    reveal_strlit(".labels\" . | nindent 4 }}\n");
    reveal_strlit(".labels\" . | nindent 4 ");
    reveal_strlit("{{- end }}\n");
    reveal_strlit("- end ");
    assert(": {{ .Values."@ =~= ": "@ + "{{"@ + " .Values."@);
    lemma_free_open(": "@, " .Values."@);
    assert(" }}\n"@ =~= " "@ + "}}"@ + "\n"@);
    lemma_then_close(" "@, "\n"@);
    assert("{{- if .Values.secrets }}\n"@ =~= "{{"@ + "- if .Values.secrets "@ + "}}"@ + "\n"@);
    lemma_open_close("- if .Values.secrets "@, "\n"@);
    assert("{{- if .Values.config }}\n"@ =~= "{{"@ + "- if .Values.config "@ + "}}"@ + "\n"@);
    lemma_open_close("- if .Values.config "@, "\n"@);
    assert("  name: {{ include \""@ =~= "  name: "@ + "{{"@ + " include \""@);
    lemma_free_open("  name: "@, " include \""@);
    assert(".fullname\" . }}\n"@ =~= ".fullname\" . "@ + "}}"@ + "\n"@);
    lemma_then_close(".fullname\" . "@, "\n"@);
    assert("    {{- include \""@ =~= "    "@ + "{{"@ + "- include \""@);
    lemma_free_open("    "@, "- include \""@);
    assert(".labels\" . | nindent 4 }}\n"@ =~= ".labels\" . | nindent 4 "@ + "}}"@ + "\n"@);
    lemma_then_close(".labels\" . | nindent 4 "@, "\n"@);
    assert("{{- end }}\n"@ =~= "{{"@ + "- end "@ + "}}"@ + "\n"@);
    lemma_open_close("- end "@, "\n"@);
}

proof fn lemma_helpers_literal_counts()
    ensures
        opens("{{/*\n"@) == 1 && closes("{{/*\n"@) == 0,
        opens("*/}}\n\n"@) == 0 && closes("*/}}\n\n"@) == 1,
        opens("{{- define \""@) == 1 && closes("{{- define \""@) == 0,
        opens("\" -}}\n"@) == 0 && closes("\" -}}\n"@) == 1,
        opens("{{- include \""@) == 1 && closes("{{- include \""@) == 0,
        opens("\" . -}}\n"@) == 0 && closes("\" . -}}\n"@) == 1,
        opens("{{- end -}}\n"@) == 1 && closes("{{- end -}}\n"@) == 1,
        opens("{{- include \"pleme-lib."@) == 1 && closes("{{- include \"pleme-lib."@) == 0,
        opens("\" . }}\n"@) == 0 && closes("\" . }}\n"@) == 1,
{
    reveal_strlit("{{/*\n");
    reveal_strlit("/*\n");
    reveal_strlit("{{");
    reveal_strlit("*/}}\n\n");
    reveal_strlit("*/");
    reveal_strlit("\n\n");
    reveal_strlit("}}");
    reveal_strlit("{{- define \"");
    reveal_strlit("- define \"");
    reveal_strlit("\" -}}\n");
    reveal_strlit("\" -");
    reveal_strlit("\n");
    reveal_strlit("{{- include \"");
    reveal_strlit("- include \"");
    reveal_strlit("\" . -}}\n");
    reveal_strlit("\" . -");
    reveal_strlit("{{- end -}}\n");
    reveal_strlit("- end -");
    reveal_strlit("{{- include \"pleme-lib.");
    reveal_strlit("- include \"pleme-lib.");
    reveal_strlit("\" . }}\n");
    reveal_strlit("\" . ");
    assert("{{/*\n"@ =~= "{{"@ + "/*\n"@);
    lemma_open_then("/*\n"@);
    assert("*/}}\n\n"@ =~= "*/"@ + "}}"@ + "\n\n"@);
    lemma_then_close("*/"@, "\n\n"@);
    assert("{{- define \""@ =~= "{{"@ + "- define \""@);
    lemma_open_then("- define \""@);
    assert("\" -}}\n"@ =~= "\" -"@ + "}}"@ + "\n"@);
    lemma_then_close("\" -"@, "\n"@);
    assert("{{- include \""@ =~= "{{"@ + "- include \""@);
    lemma_open_then("- include \""@);
    assert("\" . -}}\n"@ =~= "\" . -"@ + "}}"@ + "\n"@);
    lemma_then_close("\" . -"@, "\n"@);
    assert("{{- end -}}\n"@ =~= "{{"@ + "- end -"@ + "}}"@ + "\n"@);
    lemma_open_close("- end -"@, "\n"@);
    assert("{{- include \"pleme-lib."@ =~= "{{"@ + "- include \"pleme-lib."@);
    lemma_open_then("- include \"pleme-lib."@);
    assert("\" . }}\n"@ =~= "\" . "@ + "}}"@ + "\n"@);
    lemma_then_close("\" . "@, "\n"@);
}

proof fn lemma_prometheusrule_literal_counts()
    ensures
        opens("          expr: absent(up{job=\"{{ include \""@) == 1,
        closes("          expr: absent(up{job=\"{{ include \""@) == 0,
        opens(".fullname\" . }}\"} == 1)\n"@) == 0,
        closes(".fullname\" . }}\"} == 1)\n"@) == 1,
        opens("  name: {{ include \""@) == 1 && closes("  name: {{ include \""@) == 0,
        opens(".fullname\" . }}\n"@) == 0 && closes(".fullname\" . }}\n"@) == 1,
        opens("    {{- include \""@) == 1 && closes("    {{- include \""@) == 0,
        opens(".labels\" . | nindent 4 }}\n"@) == 0 && closes(".labels\" . | nindent 4 }}\n"@) == 1,
        opens("{{- end }}\n"@) == 1 && closes("{{- end }}\n"@) == 1,
        opens("{{- if .Values.monitoring.alerting.enabled }}\n"@) == 1 && closes("{{- if .Values.monitoring.alerting.enabled }}\n"@) == 1,
{
    lemma_template_literal_counts();
    reveal_strlit("{{- if .Values.monitoring.alerting.enabled }}\n");
    reveal_strlit("- if .Values.monitoring.alerting.enabled ");
    reveal_strlit("\n");
    reveal_strlit("{{");
    reveal_strlit("}}");
    assert("{{- if .Values.monitoring.alerting.enabled }}\n"@ =~= "{{"@ + "- if .Values.monitoring.alerting.enabled "@ + "}}"@ + "\n"@);
    lemma_open_close("- if .Values.monitoring.alerting.enabled "@, "\n"@);
    reveal_strlit("          expr: absent(up{job=\"{{ include \"");
    reveal_strlit("          expr: absent(up");
    reveal_strlit("job=\"");
    reveal_strlit(" include \"");
    let x = "          expr: absent(up"@ + seq!['{'] + "job=\""@;
    lemma_lone_brace("          expr: absent(up"@, '{', "job=\""@);
    lemma_open_then(" include \""@);
    lemma_counts_join(x, "{{"@ + " include \""@);
    assert("          expr: absent(up{job=\"{{ include \""@ =~= x + ("{{"@ + " include \""@));
    reveal_strlit(".fullname\" . }}\"} == 1)\n");
    reveal_strlit(".fullname\" . ");
    reveal_strlit("\"");
    reveal_strlit(" == 1)\n");
    reveal_strlit("");
    lemma_then_close(".fullname\" . "@, ""@);
    lemma_lone_brace("\""@, '}', " == 1)\n"@);
    let y = ".fullname\" . "@ + "}}"@ + ""@;
    let z = "\""@ + seq!['}'] + " == 1)\n"@;
    lemma_counts_join(y, z);
    assert(".fullname\" . }}\"} == 1)\n"@ =~= y + z);
}

proof fn lemma_data_lines_safe(section: Seq<char>, attrs: Seq<IacAttribute>)
    requires
        brace_free(section),
        names_brace_free(attrs),
    ensures
        brace_safe(data_lines(section, attrs)),
        opens(data_lines(section, attrs)) == closes(data_lines(section, attrs)),
    decreases attrs.len(),
{
    if attrs.len() == 0 {
        lemma_brace_free_safe(Seq::<char>::empty());
        lemma_counts_free(Seq::<char>::empty());
    } else {
        let d = attrs.drop_last();
        assert forall|i: int| 0 <= i < d.len() implies brace_free(#[trigger] d[i].canonical_name@) by {
            assert(d[i] == attrs[i]);
        }
        lemma_data_lines_safe(section, d);
        lemma_template_literals();
        lemma_template_literal_counts();
        let a = attrs.last();
        let c = a.canonical_name@;
        assert(brace_free(attrs[attrs.len() - 1].canonical_name@));
        lemma_kebab_brace_free(c);
        lemma_brace_free_concat("  "@, kebab(c));
        lemma_brace_free_safe("  "@ + kebab(c));
        lemma_counts_free("  "@ + kebab(c));
        let p2 = "  "@ + kebab(c) + ": {{ .Values."@;
        lemma_safe_safe_counts("  "@ + kebab(c), ": {{ .Values."@);
        lemma_safe_free_counts(p2, section);
        lemma_safe_free_counts(p2 + section, "."@);
        lemma_safe_free_counts(p2 + section + "."@, c);
        let tail = if is_structured(a.iac_type) {
            " | toJson | quote"@
        } else {
            " | quote"@
        };
        lemma_safe_free_counts(p2 + section + "."@ + c, tail);
        lemma_safe_safe_counts(p2 + section + "."@ + c + tail, " }}\n"@);
        lemma_safe_safe_counts(data_lines(section, d), data_line(section, a));
    }
}

proof fn lemma_object_text_safe(n: Seq<char>, attrs: Seq<IacAttribute>, secret: bool)
    requires
        brace_free(n),
        names_brace_free(attrs),
    ensures
        brace_safe(object_text(n, attrs, secret)),
        opens(object_text(n, attrs, secret)) == closes(object_text(n, attrs, secret)),
{
    lemma_template_literals();
    lemma_template_literal_counts();
    if attrs.len() == 0 {
        lemma_brace_free_safe(Seq::<char>::empty());
        lemma_counts_free(Seq::<char>::empty());
    } else {
        let h1 = if secret {
            "{{- if .Values.secrets }}\n"@
        } else {
            "{{- if .Values.config }}\n"@
        };
        let kind = if secret {
            "kind: Secret\n"@
        } else {
            "kind: ConfigMap\n"@
        };
        let data = if secret {
            "type: Opaque\nstringData:\n"@
        } else {
            "data:\n"@
        };
        lemma_safe_free_counts(h1, "apiVersion: v1\n"@);
        let h2 = h1 + "apiVersion: v1\n"@;
        lemma_safe_free_counts(h2, kind);
        lemma_safe_free_counts(h2 + kind, "metadata:\n"@);
        let h3 = h2 + kind + "metadata:\n"@;
        lemma_safe_safe_counts(h3, "  name: {{ include \""@);
        lemma_safe_free_counts(h3 + "  name: {{ include \""@, n);
        let h4 = h3 + "  name: {{ include \""@ + n;
        lemma_safe_safe_counts(h4, ".fullname\" . }}\n"@);
        lemma_safe_free_counts(h4 + ".fullname\" . }}\n"@, "  labels:\n"@);
        let h5 = h4 + ".fullname\" . }}\n"@ + "  labels:\n"@;
        lemma_safe_safe_counts(h5, "    {{- include \""@);
        lemma_safe_free_counts(h5 + "    {{- include \""@, n);
        let h6 = h5 + "    {{- include \""@ + n;
        lemma_safe_safe_counts(h6, ".labels\" . | nindent 4 }}\n"@);
        lemma_safe_free_counts(h6 + ".labels\" . | nindent 4 }}\n"@, data);
        assert(object_header(n, secret) == h6 + ".labels\" . | nindent 4 }}\n"@ + data);
        let section = if secret {
            "secrets"@
        } else {
            "config"@
        };
        lemma_data_lines_safe(section, attrs);
        lemma_safe_safe_counts(object_header(n, secret), data_lines(section, attrs));
        lemma_safe_safe_counts(object_header(n, secret) + data_lines(section, attrs), "{{- end }}\n"@);
    }
}

proof fn lemma_helpers_literals()
    ensures
        brace_safe("{{/*\n"@),
        brace_free("Helpers for "@),
        brace_free(" — delegates to pleme-lib.\n"@),
        brace_safe("*/}}\n\n"@),
        brace_safe("{{- define \""@),
        brace_free("."@),
        brace_safe("\" -}}\n"@),
        brace_safe("{{- include \""@),
        brace_safe("\" . -}}\n"@),
        brace_safe("{{- end -}}\n"@),
        brace_free("\n"@),
        brace_free(""@),
        brace_free("name"@),
        brace_free("fullname"@),
        brace_free("labels"@),
        brace_free("selectorLabels"@),
        brace_free("pleme-lib.name"@),
        brace_free("pleme-lib.fullname"@),
        brace_free("pleme-lib.labels"@),
        brace_free("pleme-lib.selectorLabels"@),
        brace_safe("{{- include \"pleme-lib."@),
        brace_safe("\" . }}\n"@),
{
    reveal_strlit("{{/*\n");
    reveal_strlit("Helpers for ");
    reveal_strlit(" — delegates to pleme-lib.\n");
    reveal_strlit("*/}}\n\n");
    reveal_strlit("{{- define \"");
    reveal_strlit(".");
    reveal_strlit("\" -}}\n");
    reveal_strlit("{{- include \"");
    reveal_strlit("\" . -}}\n");
    reveal_strlit("{{- end -}}\n");
    reveal_strlit("\n");
    reveal_strlit("");
    reveal_strlit("name");
    reveal_strlit("fullname");
    reveal_strlit("labels");
    reveal_strlit("selectorLabels");
    reveal_strlit("pleme-lib.name");
    reveal_strlit("pleme-lib.fullname");
    reveal_strlit("pleme-lib.labels");
    reveal_strlit("pleme-lib.selectorLabels");
    reveal_strlit("{{- include \"pleme-lib.");
    reveal_strlit("\" . }}\n");
}

proof fn lemma_helper_block_safe(n: Seq<char>, helper: Seq<char>, lib_helper: Seq<char>, tail: Seq<char>)
    requires
        brace_free(n),
        brace_free(helper),
        brace_free(lib_helper),
        brace_free(tail),
    ensures
        brace_safe(helper_block(n, helper, lib_helper, tail)),
        opens(helper_block(n, helper, lib_helper, tail)) == 1 + 1 + 1,
        closes(helper_block(n, helper, lib_helper, tail)) == 1 + 1 + 1,
{
    lemma_helpers_literals();
    lemma_helpers_literal_counts();
    lemma_safe_free_counts("{{- define \""@, n);
    lemma_safe_free_counts("{{- define \""@ + n, "."@);
    lemma_safe_free_counts("{{- define \""@ + n + "."@, helper);
    let b1 = "{{- define \""@ + n + "."@ + helper;
    lemma_safe_safe_counts(b1, "\" -}}\n"@);
    lemma_safe_safe_counts(b1 + "\" -}}\n"@, "{{- include \""@);
    lemma_safe_free_counts(b1 + "\" -}}\n"@ + "{{- include \""@, lib_helper);
    let b2 = b1 + "\" -}}\n"@ + "{{- include \""@ + lib_helper;
    lemma_safe_safe_counts(b2, "\" . -}}\n"@);
    lemma_safe_safe_counts(b2 + "\" . -}}\n"@, "{{- end -}}\n"@);
    lemma_safe_free_counts(b2 + "\" . -}}\n"@ + "{{- end -}}\n"@, tail);
}

proof fn lemma_helpers_safe(n: Seq<char>)
    requires
        brace_free(n),
    ensures
        brace_safe(helpers_text(n)),
        opens(helpers_text(n)) == closes(helpers_text(n)),
{
    lemma_helpers_literals();
    lemma_helpers_literal_counts();
    lemma_safe_free_counts("{{/*\n"@, "Helpers for "@);
    lemma_safe_free_counts("{{/*\n"@ + "Helpers for "@, n);
    lemma_safe_free_counts("{{/*\n"@ + "Helpers for "@ + n, " — delegates to pleme-lib.\n"@);
    let h = "{{/*\n"@ + "Helpers for "@ + n + " — delegates to pleme-lib.\n"@;
    lemma_safe_safe_counts(h, "*/}}\n\n"@);
    let h0 = h + "*/}}\n\n"@;
    lemma_helper_block_safe(n, "name"@, "pleme-lib.name"@, "\n"@);
    lemma_helper_block_safe(n, "fullname"@, "pleme-lib.fullname"@, "\n"@);
    lemma_helper_block_safe(n, "labels"@, "pleme-lib.labels"@, "\n"@);
    lemma_helper_block_safe(n, "selectorLabels"@, "pleme-lib.selectorLabels"@, ""@);
    let h1 = h0 + helper_block(n, "name"@, "pleme-lib.name"@, "\n"@);
    lemma_safe_safe_counts(h0, helper_block(n, "name"@, "pleme-lib.name"@, "\n"@));
    let h2 = h1 + helper_block(n, "fullname"@, "pleme-lib.fullname"@, "\n"@);
    lemma_safe_safe_counts(h1, helper_block(n, "fullname"@, "pleme-lib.fullname"@, "\n"@));
    let h3 = h2 + helper_block(n, "labels"@, "pleme-lib.labels"@, "\n"@);
    lemma_safe_safe_counts(h2, helper_block(n, "labels"@, "pleme-lib.labels"@, "\n"@));
    lemma_safe_safe_counts(h3, helper_block(n, "selectorLabels"@, "pleme-lib.selectorLabels"@, ""@));
}

proof fn lemma_prometheusrule_literals()
    ensures
        brace_safe("{{- if .Values.monitoring.alerting.enabled }}\n"@),
        brace_free("apiVersion: monitoring.coreos.com/v1\n"@),
        brace_free("kind: PrometheusRule\n"@),
        brace_free("metadata:\n"@),
        brace_safe("  name: {{ include \""@),
        brace_safe(".fullname\" . }}\n"@),
        brace_free("  labels:\n"@),
        brace_safe("    {{- include \""@),
        brace_safe(".labels\" . | nindent 4 }}\n"@),
        brace_free("spec:\n"@),
        brace_free("  groups:\n"@),
        brace_free("    - name: "@),
        brace_free(".rules\n"@),
        brace_free("      rules:\n"@),
        brace_free("        - alert: "@),
        brace_free("-down\n"@),
        brace_safe("          expr: absent(up{job=\"{{ include \""@),
        brace_safe(".fullname\" . }}\"} == 1)\n"@),
        brace_free("          for: 2m\n"@),
        brace_free("          labels:\n"@),
        brace_free("            severity: critical\n"@),
        brace_free("          annotations:\n"@),
        brace_free("            summary: "@),
        brace_free(" is down\n"@),
        brace_safe("{{- end }}\n"@),
{
    reveal_strlit("{{- if .Values.monitoring.alerting.enabled }}\n");
    reveal_strlit("apiVersion: monitoring.coreos.com/v1\n");
    reveal_strlit("kind: PrometheusRule\n");
    reveal_strlit("metadata:\n");
    reveal_strlit("  name: {{ include \"");
    reveal_strlit(".fullname\" . }}\n");
    reveal_strlit("  labels:\n");
    reveal_strlit("    {{- include \"");
    reveal_strlit(".labels\" . | nindent 4 }}\n");
    reveal_strlit("spec:\n");
    reveal_strlit("  groups:\n");
    reveal_strlit("    - name: ");
    reveal_strlit(".rules\n");
    reveal_strlit("      rules:\n");
    reveal_strlit("        - alert: ");
    reveal_strlit("-down\n");
    reveal_strlit("          expr: absent(up{job=\"{{ include \"");
    reveal_strlit(".fullname\" . }}\"} == 1)\n");
    reveal_strlit("          for: 2m\n");
    reveal_strlit("          labels:\n");
    reveal_strlit("            severity: critical\n");
    reveal_strlit("          annotations:\n");
    reveal_strlit("            summary: ");
    reveal_strlit(" is down\n");
    reveal_strlit("{{- end }}\n");
}

proof fn lemma_prometheusrule_safe(n: Seq<char>)
    requires
        brace_free(n),
    ensures
        brace_safe(prometheusrule_text(n)),
        opens(prometheusrule_text(n)) == closes(prometheusrule_text(n)),
{
    lemma_prometheusrule_literals();
    lemma_prometheusrule_literal_counts();
    let p0 = "{{- if .Values.monitoring.alerting.enabled }}\n"@;
    lemma_safe_free_counts(p0, "apiVersion: monitoring.coreos.com/v1\n"@);
    let p1 = p0 + "apiVersion: monitoring.coreos.com/v1\n"@;
    lemma_safe_free_counts(p1, "kind: PrometheusRule\n"@);
    let p2 = p1 + "kind: PrometheusRule\n"@;
    lemma_safe_free_counts(p2, "metadata:\n"@);
    let p3 = p2 + "metadata:\n"@;
    lemma_safe_safe_counts(p3, "  name: {{ include \""@);
    let p4 = p3 + "  name: {{ include \""@;
    lemma_safe_free_counts(p4, n);
    let p5 = p4 + n;
    lemma_safe_safe_counts(p5, ".fullname\" . }}\n"@);
    let p6 = p5 + ".fullname\" . }}\n"@;
    lemma_safe_free_counts(p6, "  labels:\n"@);
    let p7 = p6 + "  labels:\n"@;
    lemma_safe_safe_counts(p7, "    {{- include \""@);
    let p8 = p7 + "    {{- include \""@;
    lemma_safe_free_counts(p8, n);
    let p9 = p8 + n;
    lemma_safe_safe_counts(p9, ".labels\" . | nindent 4 }}\n"@);
    let p10 = p9 + ".labels\" . | nindent 4 }}\n"@;
    lemma_safe_free_counts(p10, "spec:\n"@);
    let p11 = p10 + "spec:\n"@;
    lemma_safe_free_counts(p11, "  groups:\n"@);
    let p12 = p11 + "  groups:\n"@;
    lemma_safe_free_counts(p12, "    - name: "@);
    let p13 = p12 + "    - name: "@;
    lemma_safe_free_counts(p13, n);
    let p14 = p13 + n;
    lemma_safe_free_counts(p14, ".rules\n"@);
    let p15 = p14 + ".rules\n"@;
    lemma_safe_free_counts(p15, "      rules:\n"@);
    let p16 = p15 + "      rules:\n"@;
    lemma_safe_free_counts(p16, "        - alert: "@);
    let p17 = p16 + "        - alert: "@;
    lemma_safe_free_counts(p17, n);
    let p18 = p17 + n;
    lemma_safe_free_counts(p18, "-down\n"@);
    let p19 = p18 + "-down\n"@;
    lemma_safe_safe_counts(p19, "          expr: absent(up{job=\"{{ include \""@);
    let p20 = p19 + "          expr: absent(up{job=\"{{ include \""@;
    lemma_safe_free_counts(p20, n);
    let p21 = p20 + n;
    lemma_safe_safe_counts(p21, ".fullname\" . }}\"} == 1)\n"@);
    let p22 = p21 + ".fullname\" . }}\"} == 1)\n"@;
    lemma_safe_free_counts(p22, "          for: 2m\n"@);
    let p23 = p22 + "          for: 2m\n"@;
    lemma_safe_free_counts(p23, "          labels:\n"@);
    let p24 = p23 + "          labels:\n"@;
    lemma_safe_free_counts(p24, "            severity: critical\n"@);
    let p25 = p24 + "            severity: critical\n"@;
    lemma_safe_free_counts(p25, "          annotations:\n"@);
    let p26 = p25 + "          annotations:\n"@;
    lemma_safe_free_counts(p26, "            summary: "@);
    let p27 = p26 + "            summary: "@;
    lemma_safe_free_counts(p27, n);
    let p28 = p27 + n;
    lemma_safe_free_counts(p28, " is down\n"@);
    let p29 = p28 + " is down\n"@;
    lemma_safe_safe_counts(p29, "{{- end }}\n"@);
}

/// Every template of a resource's chart is well braced (no `{{{` or `}}}`,
/// and as many `{{` as `}}`) when the resource's name and its attributes'
/// names hold no braces: the helpers, each delegate template (for any
/// template name without braces), the ConfigMap, the Secret and the
/// PrometheusRule.
pub proof fn templates_are_well_braced(r: IacResource)
    requires
        brace_free(r.name@),
        names_brace_free(r.attributes@),
    ensures
        well_braced(helpers_text(kebab(r.name@))),
        forall|name: Seq<char>| brace_free(name) ==> well_braced(#[trigger] delegate_text(name)),
        well_braced(object_text(kebab(r.name@), config_attrs(r), false)),
        well_braced(object_text(kebab(r.name@), secret_attrs(r), true)),
        well_braced(prometheusrule_text(kebab(r.name@))),
{
    let n = kebab(r.name@);
    lemma_kebab_brace_free(r.name@);
    lemma_helpers_safe(n);
    assert forall|name: Seq<char>| brace_free(name) implies well_braced(#[trigger] delegate_text(name)) by {
        lemma_helpers_literals();
        lemma_helpers_literal_counts();
        lemma_safe_free_counts("{{- include \"pleme-lib."@, name);
        lemma_safe_safe_counts("{{- include \"pleme-lib."@ + name, "\" . }}\n"@);
    }
    lemma_select_names(r.attributes@, false);
    lemma_select_names(r.attributes@, true);
    lemma_object_text_safe(n, config_attrs(r), false);
    lemma_object_text_safe(n, secret_attrs(r), true);
    lemma_prometheusrule_safe(n);
}

proof fn lemma_data_lines_read(section: Seq<char>, attrs: Seq<IacAttribute>, j: int)
    requires
        0 <= j < attrs.len(),
    ensures
        contains_text(data_lines(section, attrs), ".Values."@ + section + "."@ + attrs[j].canonical_name@),
    decreases attrs.len(),
{
    reveal_strlit(": {{ .Values.");
    reveal_strlit(": {{ ");
    reveal_strlit(".Values.");
    let d = attrs.drop_last();
    let a = attrs.last();
    let t = ".Values."@ + section + "."@ + a.canonical_name@;
    let tail = (if is_structured(a.iac_type) {
        " | toJson | quote"@
    } else {
        " | quote"@
    }) + " }}\n"@;
    let pre = data_lines(section, d) + ("  "@ + kebab(a.canonical_name@) + ": {{ "@);
    assert(data_lines(section, attrs) =~= pre + t + tail);
    if j == attrs.len() - 1 {
        lemma_contains_middle(pre, t, tail);
    } else {
        assert(d[j] == attrs[j]);
        lemma_data_lines_read(section, d, j);
        lemma_contains_widen(
            Seq::<char>::empty(),
            data_lines(section, d),
            data_line(section, a),
            ".Values."@ + section + "."@ + attrs[j].canonical_name@,
        );
        assert(Seq::<char>::empty() + data_lines(section, d) + data_line(section, a) =~= data_lines(section, attrs));
    }
}

/// The Secret template reads every secret attribute of a resource from
/// `.Values.secrets.<canonical name>`, and the ConfigMap template every
/// config attribute from `.Values.config.<canonical name>`.
pub proof fn templates_read_canonical_names(r: IacResource, j: int)
    requires
        0 <= j < r.attributes@.len(),
    ensures
        r.attributes@[j].sensitive && !r.attributes@[j].computed ==> contains_text(
            object_text(kebab(r.name@), secret_attrs(r), true),
            ".Values.secrets."@ + r.attributes@[j].canonical_name@,
        ),
        !r.attributes@[j].sensitive && !r.attributes@[j].computed ==> contains_text(
            object_text(kebab(r.name@), config_attrs(r), false),
            ".Values.config."@ + r.attributes@[j].canonical_name@,
        ),
{
    reveal_strlit(".Values.secrets.");
    reveal_strlit(".Values.config.");
    reveal_strlit(".Values.");
    reveal_strlit("secrets");
    reveal_strlit("config");
    reveal_strlit(".");
    let a = r.attributes@[j];
    let n = kebab(r.name@);
    if is_secret_attr(a) {
        lemma_select_keeps(r.attributes@, true, j);
        let sa = secret_attrs(r);
        let k = choose|k: int| 0 <= k < sa.len() && #[trigger] select_attrs(r.attributes@, true)[k] == a;
        lemma_data_lines_read("secrets"@, sa, k);
        assert(".Values."@ + "secrets"@ + "."@ + a.canonical_name@ =~= ".Values.secrets."@ + a.canonical_name@);
        lemma_contains_widen(object_header(n, true), data_lines("secrets"@, sa), "{{- end }}\n"@, ".Values.secrets."@ + a.canonical_name@);
    }
    if is_config_attr(a) {
        lemma_select_keeps(r.attributes@, false, j);
        let ca = config_attrs(r);
        let k = choose|k: int| 0 <= k < ca.len() && #[trigger] select_attrs(r.attributes@, false)[k] == a;
        lemma_data_lines_read("config"@, ca, k);
        assert(".Values."@ + "config"@ + "."@ + a.canonical_name@ =~= ".Values.config."@ + a.canonical_name@);
        lemma_contains_widen(object_header(n, false), data_lines("config"@, ca), "{{- end }}\n"@, ".Values.config."@ + a.canonical_name@);
    }
}

proof fn lemma_helper_defined(n: Seq<char>, h: Seq<char>, lib: Seq<char>, tail: Seq<char>)
    ensures
        contains_text(helper_block(n, h, lib, tail), "{{- define \""@ + n + "."@ + h + "\" -}}"@),
{
    reveal_strlit("\" -}}\n");
    reveal_strlit("\" -}}");
    reveal_strlit("\n");
    assert("\" -}}\n"@ =~= "\" -}}"@ + "\n"@);
    let t = "{{- define \""@ + n + "."@ + h + "\" -}}"@;
    let rest = "\n"@ + "{{- include \""@ + lib + "\" . -}}\n"@ + "{{- end -}}\n"@ + tail;
    assert(helper_block(n, h, lib, tail) =~= Seq::<char>::empty() + t + rest);
    lemma_contains_middle(Seq::<char>::empty(), t, rest);
}

proof fn lemma_helpers_define(n: Seq<char>)
    ensures
        contains_text(helpers_text(n), "{{- define \""@ + n + ".fullname\" -}}"@),
        contains_text(helpers_text(n), "{{- define \""@ + n + ".labels\" -}}"@),
{
    reveal_strlit(".fullname\" -}}");
    reveal_strlit(".labels\" -}}");
    reveal_strlit(".");
    reveal_strlit("fullname");
    reveal_strlit("labels");
    reveal_strlit("\" -}}");
    let intro = "{{/*\n"@ + "Helpers for "@ + n + " — delegates to pleme-lib.\n"@ + "*/}}\n\n"@;
    let b1 = helper_block(n, "name"@, "pleme-lib.name"@, "\n"@);
    let b2 = helper_block(n, "fullname"@, "pleme-lib.fullname"@, "\n"@);
    let b3 = helper_block(n, "labels"@, "pleme-lib.labels"@, "\n"@);
    let b4 = helper_block(n, "selectorLabels"@, "pleme-lib.selectorLabels"@, ""@);
    assert(helpers_text(n) =~= (intro + b1) + b2 + (b3 + b4));
    lemma_helper_defined(n, "fullname"@, "pleme-lib.fullname"@, "\n"@);
    assert("{{- define \""@ + n + "."@ + "fullname"@ + "\" -}}"@ =~= "{{- define \""@ + n + ".fullname\" -}}"@);
    lemma_contains_widen(intro + b1, b2, b3 + b4, "{{- define \""@ + n + ".fullname\" -}}"@);
    assert(helpers_text(n) =~= (intro + b1 + b2) + b3 + b4);
    lemma_helper_defined(n, "labels"@, "pleme-lib.labels"@, "\n"@);
    assert("{{- define \""@ + n + "."@ + "labels"@ + "\" -}}"@ =~= "{{- define \""@ + n + ".labels\" -}}"@);
    lemma_contains_widen(intro + b1 + b2, b3, b4, "{{- define \""@ + n + ".labels\" -}}"@);
}

proof fn lemma_include_literals()
    ensures
        "  name: {{ include \""@ == "  name: {{ "@ + "include \""@,
        "    {{- include \""@ == "    {{- "@ + "include \""@,
        ".fullname\" . }}\n"@ == ".fullname\""@ + " . }}\n"@,
        ".labels\" . | nindent 4 }}\n"@ == ".labels\""@ + " . | nindent 4 }}\n"@,
{
    reveal_strlit("  name: {{ include \"");
    reveal_strlit("  name: {{ ");
    reveal_strlit("include \"");
    reveal_strlit("    {{- include \"");
    reveal_strlit("    {{- ");
    reveal_strlit(".fullname\" . }}\n");
    reveal_strlit(".fullname\"");
    reveal_strlit(" . }}\n");
    reveal_strlit(".labels\" . | nindent 4 }}\n");
    reveal_strlit(".labels\"");
    reveal_strlit(" . | nindent 4 }}\n");
    assert("  name: {{ include \""@ =~= "  name: {{ "@ + "include \""@);
    assert("    {{- include \""@ =~= "    {{- "@ + "include \""@);
    assert(".fullname\" . }}\n"@ =~= ".fullname\""@ + " . }}\n"@);
    assert(".labels\" . | nindent 4 }}\n"@ =~= ".labels\""@ + " . | nindent 4 }}\n"@);
}

proof fn lemma_object_includes(n: Seq<char>, attrs: Seq<IacAttribute>, secret: bool)
    requires
        attrs.len() > 0,
    ensures
        contains_text(object_text(n, attrs, secret), "include \""@ + n + ".fullname\""@),
        contains_text(object_text(n, attrs, secret), "include \""@ + n + ".labels\""@),
{
    lemma_include_literals();
    let f = "include \""@ + n + ".fullname\""@;
    let l = "include \""@ + n + ".labels\""@;
    let h1 = if secret {
        "{{- if .Values.secrets }}\n"@
    } else {
        "{{- if .Values.config }}\n"@
    };
    let kind = if secret {
        "kind: Secret\n"@
    } else {
        "kind: ConfigMap\n"@
    };
    let data = if secret {
        "type: Opaque\nstringData:\n"@
    } else {
        "data:\n"@
    };
    let section = if secret {
        "secrets"@
    } else {
        "config"@
    };
    let start = h1 + "apiVersion: v1\n"@ + kind + "metadata:\n"@;
    let end = data + data_lines(section, attrs) + "{{- end }}\n"@;
    let mid = "  name: {{ include \""@ + n + ".fullname\" . }}\n"@ + "  labels:\n"@ + "    {{- include \""@ + n
        + ".labels\" . | nindent 4 }}\n"@;
    assert(object_text(n, attrs, secret) == start + mid + end);
    let p1 = "  name: {{ "@;
    let q1 = " . }}\n"@ + "  labels:\n"@ + "    {{- "@ + l + " . | nindent 4 }}\n"@;
    assert(mid =~= p1 + f + q1);
    lemma_contains_middle(p1, f, q1);
    lemma_contains_widen(start, mid, end, f);
    let p2 = p1 + f + " . }}\n"@ + "  labels:\n"@ + "    {{- "@;
    let q2 = " . | nindent 4 }}\n"@;
    assert(mid =~= p2 + l + q2);
    lemma_contains_middle(p2, l, q2);
    lemma_contains_widen(start, mid, end, l);
}

proof fn lemma_prometheusrule_includes(n: Seq<char>)
    ensures
        contains_text(prometheusrule_text(n), "include \""@ + n + ".fullname\""@),
        contains_text(prometheusrule_text(n), "include \""@ + n + ".labels\""@),
{
    lemma_include_literals();
    let f = "include \""@ + n + ".fullname\""@;
    let l = "include \""@ + n + ".labels\""@;
    let start = "{{- if .Values.monitoring.alerting.enabled }}\n"@ + "apiVersion: monitoring.coreos.com/v1\n"@
        + "kind: PrometheusRule\n"@ + "metadata:\n"@;
    let x1 = start + "  name: {{ include \""@ + n + ".fullname\" . }}\n"@;
    assert(x1 =~= (start + "  name: {{ "@) + f + " . }}\n"@);
    lemma_contains_middle(start + "  name: {{ "@, f, " . }}\n"@);
    let x2 = x1 + "  labels:\n"@;
    lemma_contains_extend(x1, "  labels:\n"@, f);
    let x5 = x2 + "    {{- include \""@ + n + ".labels\" . | nindent 4 }}\n"@;
    assert(x5 =~= (x2 + "    {{- "@) + l + " . | nindent 4 }}\n"@);
    lemma_contains_middle(x2 + "    {{- "@, l, " . | nindent 4 }}\n"@);
    assert(x5 =~= x2 + ("    {{- include \""@ + n + ".labels\" . | nindent 4 }}\n"@));
    lemma_contains_extend(x2, "    {{- include \""@ + n + ".labels\" . | nindent 4 }}\n"@, f);
    let y0 = x5 + "spec:\n"@;
    lemma_contains_extend(x5, "spec:\n"@, f);
    lemma_contains_extend(x5, "spec:\n"@, l);
    let y1 = y0 + "  groups:\n"@;
    lemma_contains_extend(y0, "  groups:\n"@, f);
    lemma_contains_extend(y0, "  groups:\n"@, l);
    let y2 = y1 + "    - name: "@;
    lemma_contains_extend(y1, "    - name: "@, f);
    lemma_contains_extend(y1, "    - name: "@, l);
    let y3 = y2 + n;
    lemma_contains_extend(y2, n, f);
    lemma_contains_extend(y2, n, l);
    let y4 = y3 + ".rules\n"@;
    lemma_contains_extend(y3, ".rules\n"@, f);
    lemma_contains_extend(y3, ".rules\n"@, l);
    let y5 = y4 + "      rules:\n"@;
    lemma_contains_extend(y4, "      rules:\n"@, f);
    lemma_contains_extend(y4, "      rules:\n"@, l);
    let y6 = y5 + "        - alert: "@;
    lemma_contains_extend(y5, "        - alert: "@, f);
    lemma_contains_extend(y5, "        - alert: "@, l);
    let y7 = y6 + n;
    lemma_contains_extend(y6, n, f);
    lemma_contains_extend(y6, n, l);
    let y8 = y7 + "-down\n"@;
    lemma_contains_extend(y7, "-down\n"@, f);
    lemma_contains_extend(y7, "-down\n"@, l);
    let y9 = y8 + "          expr: absent(up{job=\"{{ include \""@;
    lemma_contains_extend(y8, "          expr: absent(up{job=\"{{ include \""@, f);
    lemma_contains_extend(y8, "          expr: absent(up{job=\"{{ include \""@, l);
    let y10 = y9 + n;
    lemma_contains_extend(y9, n, f);
    lemma_contains_extend(y9, n, l);
    let y11 = y10 + ".fullname\" . }}\"} == 1)\n"@;
    lemma_contains_extend(y10, ".fullname\" . }}\"} == 1)\n"@, f);
    lemma_contains_extend(y10, ".fullname\" . }}\"} == 1)\n"@, l);
    let y12 = y11 + "          for: 2m\n"@;
    lemma_contains_extend(y11, "          for: 2m\n"@, f);
    lemma_contains_extend(y11, "          for: 2m\n"@, l);
    let y13 = y12 + "          labels:\n"@;
    lemma_contains_extend(y12, "          labels:\n"@, f);
    lemma_contains_extend(y12, "          labels:\n"@, l);
    let y14 = y13 + "            severity: critical\n"@;
    lemma_contains_extend(y13, "            severity: critical\n"@, f);
    lemma_contains_extend(y13, "            severity: critical\n"@, l);
    let y15 = y14 + "          annotations:\n"@;
    lemma_contains_extend(y14, "          annotations:\n"@, f);
    lemma_contains_extend(y14, "          annotations:\n"@, l);
    let y16 = y15 + "            summary: "@;
    lemma_contains_extend(y15, "            summary: "@, f);
    lemma_contains_extend(y15, "            summary: "@, l);
    let y17 = y16 + n;
    lemma_contains_extend(y16, n, f);
    lemma_contains_extend(y16, n, l);
    let y18 = y17 + " is down\n"@;
    lemma_contains_extend(y17, " is down\n"@, f);
    lemma_contains_extend(y17, " is down\n"@, l);
    let y19 = y18 + "{{- end }}\n"@;
    lemma_contains_extend(y18, "{{- end }}\n"@, f);
    lemma_contains_extend(y18, "{{- end }}\n"@, l);
    assert(prometheusrule_text(n) == y19);
}

/// The helpers that the ConfigMap, the Secret and the PrometheusRule of a
/// chart include (`<chart>.fullname` and `<chart>.labels`) are defined in
/// the chart's `_helpers.tpl`.
pub proof fn included_helpers_are_defined(n: Seq<char>, attrs: Seq<IacAttribute>, secret: bool)
    requires
        attrs.len() > 0,
    ensures
        contains_text(object_text(n, attrs, secret), "include \""@ + n + ".fullname\""@),
        contains_text(object_text(n, attrs, secret), "include \""@ + n + ".labels\""@),
        contains_text(prometheusrule_text(n), "include \""@ + n + ".fullname\""@),
        contains_text(prometheusrule_text(n), "include \""@ + n + ".labels\""@),
        contains_text(helpers_text(n), "{{- define \""@ + n + ".fullname\" -}}"@),
        contains_text(helpers_text(n), "{{- define \""@ + n + ".labels\" -}}"@),
{
    lemma_helpers_define(n);
    lemma_object_includes(n, attrs, secret);
    lemma_prometheusrule_includes(n);
}

} // verus!
