//! `values.yaml`: standard pleme-lib values taken from the configuration,
//! plus a `config:` section for the resource's non-sensitive attributes and a
//! `secrets:` section for its sensitive ones.

use vstd::prelude::*;

use crate::config::{is_default_config, HelmConfig};
use crate::ir::{IacAttribute, IacResource, IacType};
use crate::naming::kebab;
use crate::template_gen::{object_text, templates_read_canonical_names};
use crate::text::{
    contains_text, decimal, lemma_contains_extend, lemma_contains_middle, lemma_contains_prepend, lemma_contains_widen,
    push_decimal,
};
use crate::traits::{
    config_attrs, derefs, is_config_attr, is_secret_attr, lemma_select_keeps, secret_attrs, select_attrs,
    AttributeFilter, DefaultAttributeFilter,
};

verus! {

/// The YAML default for a value of type `t`.
pub open spec fn default_value_text(t: IacType) -> Seq<char> {
    match t {
        IacType::String => "\"\""@,
        IacType::Integer => "0"@,
        IacType::Float => "0.0"@,
        IacType::Numeric => "0"@,
        IacType::Boolean => "false"@,
        IacType::List(_) | IacType::SetOf(_) => "[]"@,
        IacType::MapOf(_) | IacType::Object { .. } => "{}"@,
        IacType::Enum { values, .. } => if values@.len() > 0 {
            "\""@ + values@[0]@ + "\""@
        } else {
            "\"\""@
        },
        IacType::Any => "\"\""@,
    }
}

/// Maps a type to a YAML default value: empty string, zero, `false`, empty
/// list or map, or the first value of an enumeration (quoted).
pub fn default_yaml_value(iac_type: &IacType) -> (res: String)
    ensures
        res@ == default_value_text(*iac_type),
{
    match iac_type {
        IacType::String => String::from_str("\"\""),
        IacType::Integer => String::from_str("0"),
        IacType::Float => String::from_str("0.0"),
        IacType::Numeric => String::from_str("0"),
        IacType::Boolean => String::from_str("false"),
        IacType::List(_) | IacType::SetOf(_) => String::from_str("[]"),
        IacType::MapOf(_) | IacType::Object { .. } => String::from_str("{}"),
        IacType::Enum { values, .. } => {
            if values.len() > 0 {
                let mut s = String::from_str("\"");
                s.append(values[0].as_str());
                s.append("\"");
                s
            } else {
                String::from_str("\"\"")
            }
        },
        IacType::Any => String::from_str("\"\""),
    }
}

/// `true` or `false`.
pub open spec fn bool_text(b: bool) -> Seq<char> {
    if b {
        "true"@
    } else {
        "false"@
    }
}

/// The comment line of an attribute with a description (nothing otherwise).
pub open spec fn comment_line(a: IacAttribute) -> Seq<char> {
    if a.description@.len() > 0 {
        "  # "@ + a.description@ + "\n"@
    } else {
        Seq::empty()
    }
}

/// The entries of the `config:` section.
pub open spec fn config_entries(attrs: Seq<IacAttribute>) -> Seq<char>
    decreases attrs.len(),
{
    if attrs.len() == 0 {
        Seq::empty()
    } else {
        config_entries(attrs.drop_last()) + comment_line(attrs.last()) + "  "@
            + attrs.last().canonical_name@ + ": "@ + default_value_text(attrs.last().iac_type) + "\n"@
    }
}

/// The entries of the `secrets:` section (all empty strings).
pub open spec fn secret_entries(attrs: Seq<IacAttribute>) -> Seq<char>
    decreases attrs.len(),
{
    if attrs.len() == 0 {
        Seq::empty()
    } else {
        secret_entries(attrs.drop_last()) + comment_line(attrs.last()) + "  "@
            + attrs.last().canonical_name@ + ": \"\"\n"@
    }
}

/// The `config:` section, absent when there are no config attributes.
pub open spec fn config_section(attrs: Seq<IacAttribute>) -> Seq<char> {
    if attrs.len() == 0 {
        Seq::empty()
    } else {
        "# Resource configuration (non-sensitive)\n"@ + "config:\n"@ + config_entries(attrs) + "\n"@
    }
}

/// The `secrets:` section, absent when there are no secret attributes.
pub open spec fn secrets_section(attrs: Seq<IacAttribute>) -> Seq<char> {
    if attrs.len() == 0 {
        Seq::empty()
    } else {
        "# Sensitive values (stored in Secret)\n"@ + "secrets:\n"@ + secret_entries(attrs) + "\n"@
    }
}

fn push_bool(s: &mut String, b: bool)
    ensures
        final(s)@ == old(s)@ + bool_text(b),
{
    if b {
        s.append("true");
    } else {
        s.append("false");
    }
}

fn push_comment(s: &mut String, a: &IacAttribute)
    ensures
        final(s)@ == old(s)@ + comment_line(*a),
{
    if a.description.as_str().unicode_len() > 0 {
        let ghost start = s@;
        s.append("  # ");
        s.append(a.description.as_str());
        s.append("\n");
        assert(s@ =~= start + comment_line(*a));
    } else {
        assert(s@ =~= old(s)@ + comment_line(*a));
    }
}

/// Appends the attribute section (config or secrets) for `attrs`.
fn push_section(s: &mut String, attrs: &Vec<&IacAttribute>, secret: bool)
    ensures
        final(s)@ == old(s)@ + if secret {
            secrets_section(derefs(attrs@))
        } else {
            config_section(derefs(attrs@))
        },
{
    let ghost all = derefs(attrs@);
    if attrs.len() == 0 {
        assert(s@ =~= old(s)@ + Seq::<char>::empty());
        return;
    }
    if secret {
        s.append("# Sensitive values (stored in Secret)\n");
        s.append("secrets:\n");
    } else {
        s.append("# Resource configuration (non-sensitive)\n");
        s.append("config:\n");
    }
    let ghost head = s@;
    let mut i: usize = 0;
    while i < attrs.len()
        invariant
            0 <= i <= attrs.len(),
            all == derefs(attrs@),
            s@ == head + if secret {
                secret_entries(all.take(i as int))
            } else {
                config_entries(all.take(i as int))
            },
        decreases attrs.len() - i,
    {
        let a = attrs[i];
        assert(all[i as int] == *a);
        assert(all.take(i + 1).drop_last() =~= all.take(i as int));
        let ghost before = s@;
        push_comment(s, a);
        s.append("  ");
        s.append(a.canonical_name.as_str());
        if secret {
            s.append(": \"\"\n");
        } else {
            s.append(": ");
            let d = default_yaml_value(&a.iac_type);
            s.append(d.as_str());
            s.append("\n");
        }
        proof {
            if secret {
                assert(s@ =~= head + secret_entries(all.take(i + 1)));
            } else {
                assert(s@ =~= head + config_entries(all.take(i + 1)));
            }
        }
        i = i + 1;
    }
    assert(all.take(attrs.len() as int) =~= all);
    s.append("\n");
    proof {
        if secret {
            assert(s@ =~= old(s)@ + secrets_section(all));
        } else {
            assert(s@ =~= old(s)@ + config_section(all));
        }
    }
}

/// The image, replica and ports block.
pub open spec fn workload_block(c: HelmConfig) -> Seq<char> {
    "image:\n"@ + "  repository: "@ + c.default_image_repository@ + "\n"@ + "  tag: latest\n"@
        + "  pullPolicy: "@ + c.image_pull_policy@ + "\n"@ + "\n"@ + "replicaCount: "@ + decimal(
        c.replica_count as nat,
    ) + "\n"@ + "\n"@ + "ports:\n"@ + "  - name: http\n"@ + "    containerPort: "@ + decimal(
        c.default_container_port as nat,
    ) + "\n"@ + "    protocol: TCP\n"@ + "\n"@
}

/// The service block.
pub open spec fn service_block(c: HelmConfig) -> Seq<char> {
    "service:\n"@ + "  type: "@ + c.default_service_type@ + "\n"@ + "  ports:\n"@
        + "    - name: http\n"@ + "      port: 80\n"@ + "      targetPort: http\n"@
        + "      protocol: TCP\n"@ + "\n"@
}

/// The resources block.
pub open spec fn resources_block(c: HelmConfig) -> Seq<char> {
    "resources:\n"@ + "  requests:\n"@ + "    cpu: "@ + c.cpu_request@ + "\n"@ + "    memory: "@
        + c.memory_request@ + "\n"@ + "  limits:\n"@ + "    cpu: "@ + c.cpu_limit@ + "\n"@
        + "    memory: "@ + c.memory_limit@ + "\n"@ + "\n"@
}

/// The monitoring block.
pub open spec fn monitoring_block(c: HelmConfig) -> Seq<char> {
    "monitoring:\n"@ + "  enabled: "@ + bool_text(c.monitoring_enabled) + "\n"@ + "  alerting:\n"@
        + "    enabled: false\n"@ + "  interval: 30s\n"@ + "  port: metrics\n"@
        + "  path: /metrics\n"@ + "\n"@
}

/// A `<name>: { enabled: <b> }` toggle block (the toggles are separated by
/// blank lines, and the last one ends the file).
pub open spec fn toggle_block(name: Seq<char>, b: bool) -> Seq<char> {
    name + ":\n"@ + "  enabled: "@ + bool_text(b) + "\n"@
}

/// The whole `values.yaml` of a resource under a configuration.
pub open spec fn values_text(r: IacResource, c: HelmConfig) -> Seq<char> {
    "# values.yaml for "@ + r.name@ + "\n"@ + "\n"@ + workload_block(c) + service_block(c)
        + config_section(config_attrs(r)) + secrets_section(secret_attrs(r)) + resources_block(c)
        + monitoring_block(c) + toggle_block("networkPolicy"@, c.network_policy_enabled) + "\n"@
        + toggle_block("pdb"@, c.pdb_enabled) + "\n"@ + toggle_block("autoscaling"@, c.autoscaling_enabled)
}

fn push_workload(s: &mut String, config: &HelmConfig)
    ensures
        final(s)@ == old(s)@ + workload_block(*config),
{
    let ghost start = s@;
    s.append("image:\n");
    s.append("  repository: ");
    s.append(config.default_image_repository.as_str());
    s.append("\n");
    s.append("  tag: latest\n");
    s.append("  pullPolicy: ");
    s.append(config.image_pull_policy.as_str());
    s.append("\n");
    s.append("\n");
    s.append("replicaCount: ");
    push_decimal(s, config.replica_count as u64);
    s.append("\n");
    s.append("\n");
    s.append("ports:\n");
    s.append("  - name: http\n");
    s.append("    containerPort: ");
    push_decimal(s, config.default_container_port as u64);
    s.append("\n");
    s.append("    protocol: TCP\n");
    s.append("\n");
    assert(s@ =~= start + workload_block(*config));
}

fn push_service(s: &mut String, config: &HelmConfig)
    ensures
        final(s)@ == old(s)@ + service_block(*config),
{
    let ghost start = s@;
    s.append("service:\n");
    s.append("  type: ");
    s.append(config.default_service_type.as_str());
    s.append("\n");
    s.append("  ports:\n");
    s.append("    - name: http\n");
    s.append("      port: 80\n");
    s.append("      targetPort: http\n");
    s.append("      protocol: TCP\n");
    s.append("\n");
    assert(s@ =~= start + service_block(*config));
}

fn push_resources(s: &mut String, config: &HelmConfig)
    ensures
        final(s)@ == old(s)@ + resources_block(*config),
{
    let ghost start = s@;
    s.append("resources:\n");
    s.append("  requests:\n");
    s.append("    cpu: ");
    s.append(config.cpu_request.as_str());
    s.append("\n");
    s.append("    memory: ");
    s.append(config.memory_request.as_str());
    s.append("\n");
    s.append("  limits:\n");
    s.append("    cpu: ");
    s.append(config.cpu_limit.as_str());
    s.append("\n");
    s.append("    memory: ");
    s.append(config.memory_limit.as_str());
    s.append("\n");
    s.append("\n");
    assert(s@ =~= start + resources_block(*config));
}

fn push_monitoring(s: &mut String, config: &HelmConfig)
    ensures
        final(s)@ == old(s)@ + monitoring_block(*config),
{
    let ghost start = s@;
    s.append("monitoring:\n");
    s.append("  enabled: ");
    push_bool(s, config.monitoring_enabled);
    s.append("\n");
    s.append("  alerting:\n");
    s.append("    enabled: false\n");
    s.append("  interval: 30s\n");
    s.append("  port: metrics\n");
    s.append("  path: /metrics\n");
    s.append("\n");
    assert(s@ =~= start + monitoring_block(*config));
}

fn push_toggle(s: &mut String, name: &str, b: bool)
    ensures
        final(s)@ == old(s)@ + toggle_block(name@, b),
{
    let ghost start = s@;
    s.append(name);
    s.append(":\n");
    s.append("  enabled: ");
    push_bool(s, b);
    s.append("\n");
    assert(s@ =~= start + toggle_block(name@, b));
}

/// `values.yaml` for a resource under the default configuration.
pub fn generate_values_yaml(resource: &IacResource) -> (res: String)
    ensures
        exists|c: HelmConfig| is_default_config(c) && res@ == values_text(*resource, c),
{
    let c = HelmConfig::default();
    generate_values_yaml_with_config(resource, &c)
}

/// `values.yaml` for a resource: image, replica count, ports and service from
/// the configuration; the `config:` and `secrets:` sections for the
/// resource's attributes; resource requests and limits, monitoring and the
/// feature toggles from the configuration.
pub fn generate_values_yaml_with_config(resource: &IacResource, config: &HelmConfig) -> (res: String)
    ensures
        res@ == values_text(*resource, *config),
{
    let mut s = String::from_str("# values.yaml for ");
    s.append(resource.name.as_str());
    s.append("\n");
    s.append("\n");
    push_workload(&mut s, config);
    push_service(&mut s, config);
    let filter = DefaultAttributeFilter;
    let config_list = filter.config_attributes(resource);
    push_section(&mut s, &config_list, false);
    let secret_list = filter.secret_attributes(resource);
    push_section(&mut s, &secret_list, true);
    push_resources(&mut s, config);
    push_monitoring(&mut s, config);
    push_toggle(&mut s, "networkPolicy", config.network_policy_enabled);
    s.append("\n");
    push_toggle(&mut s, "pdb", config.pdb_enabled);
    s.append("\n");
    push_toggle(&mut s, "autoscaling", config.autoscaling_enabled);
    s
}

proof fn lemma_secret_entries_hold(attrs: Seq<IacAttribute>, j: int)
    requires
        0 <= j < attrs.len(),
    ensures
        contains_text(secret_entries(attrs), "  "@ + attrs[j].canonical_name@ + ": \"\"\n"@),
    decreases attrs.len(),
{
    let d = attrs.drop_last();
    let a = attrs.last();
    let pre = secret_entries(d) + comment_line(a);
    let line = "  "@ + a.canonical_name@ + ": \"\"\n"@;
    assert(secret_entries(attrs) =~= pre + line + Seq::<char>::empty());
    if j == attrs.len() - 1 {
        lemma_contains_middle(pre, line, Seq::<char>::empty());
    } else {
        assert(d[j] == attrs[j]);
        lemma_secret_entries_hold(d, j);
        assert(secret_entries(attrs) =~= Seq::<char>::empty() + secret_entries(d) + (comment_line(a) + line));
        lemma_contains_widen(
            Seq::<char>::empty(),
            secret_entries(d),
            comment_line(a) + line,
            "  "@ + attrs[j].canonical_name@ + ": \"\"\n"@,
        );
    }
}

proof fn lemma_config_entries_hold(attrs: Seq<IacAttribute>, j: int)
    requires
        0 <= j < attrs.len(),
    ensures
        contains_text(config_entries(attrs), "  "@ + attrs[j].canonical_name@ + ": "@),
    decreases attrs.len(),
{
    let d = attrs.drop_last();
    let a = attrs.last();
    let pre = config_entries(d) + comment_line(a);
    let key = "  "@ + a.canonical_name@ + ": "@;
    let rest = default_value_text(a.iac_type) + "\n"@;
    assert(config_entries(attrs) =~= pre + key + rest);
    if j == attrs.len() - 1 {
        lemma_contains_middle(pre, key, rest);
    } else {
        assert(d[j] == attrs[j]);
        lemma_config_entries_hold(d, j);
        assert(config_entries(attrs) =~= Seq::<char>::empty() + config_entries(d) + (comment_line(a) + key + rest));
        lemma_contains_widen(
            Seq::<char>::empty(),
            config_entries(d),
            comment_line(a) + key + rest,
            "  "@ + attrs[j].canonical_name@ + ": "@,
        );
    }
}

/// Every secret attribute of a resource (sensitive, not computed) has its
/// own line `  <canonical name>: ""` in `values.yaml`, and every config
/// attribute (neither sensitive nor computed) a line starting with
/// `  <canonical name>: `: the values key of an attribute is exactly its
/// canonical name, whatever the configuration.
pub proof fn values_keys_are_canonical_names(r: IacResource, c: HelmConfig, j: int)
    requires
        0 <= j < r.attributes@.len(),
    ensures
        r.attributes@[j].sensitive && !r.attributes@[j].computed ==> contains_text(
            values_text(r, c),
            "  "@ + r.attributes@[j].canonical_name@ + ": \"\"\n"@,
        ),
        !r.attributes@[j].sensitive && !r.attributes@[j].computed ==> contains_text(
            values_text(r, c),
            "  "@ + r.attributes@[j].canonical_name@ + ": "@,
        ),
{
    let a = r.attributes@[j];
    let head = "# values.yaml for "@ + r.name@ + "\n"@ + "\n"@ + workload_block(c) + service_block(c);
    let tail = resources_block(c) + monitoring_block(c) + toggle_block("networkPolicy"@, c.network_policy_enabled)
        + "\n"@ + toggle_block("pdb"@, c.pdb_enabled) + "\n"@ + toggle_block("autoscaling"@, c.autoscaling_enabled);
    let cs = config_section(config_attrs(r));
    let ss = secrets_section(secret_attrs(r));
    assert(values_text(r, c) =~= head + cs + ss + tail);
    if is_secret_attr(a) {
        lemma_select_keeps(r.attributes@, true, j);
        let sa = secret_attrs(r);
        let k = choose|k: int| 0 <= k < sa.len() && #[trigger] select_attrs(r.attributes@, true)[k] == a;
        let line = "  "@ + a.canonical_name@ + ": \"\"\n"@;
        lemma_secret_entries_hold(sa, k);
        let hd = "# Sensitive values (stored in Secret)\n"@ + "secrets:\n"@;
        assert(ss =~= hd + secret_entries(sa) + "\n"@);
        lemma_contains_widen(hd, secret_entries(sa), "\n"@, line);
        assert(values_text(r, c) =~= (head + cs) + ss + tail);
        lemma_contains_widen(head + cs, ss, tail, line);
    }
    if is_config_attr(a) {
        lemma_select_keeps(r.attributes@, false, j);
        let ca = config_attrs(r);
        let k = choose|k: int| 0 <= k < ca.len() && #[trigger] select_attrs(r.attributes@, false)[k] == a;
        let key = "  "@ + a.canonical_name@ + ": "@;
        lemma_config_entries_hold(ca, k);
        let hd = "# Resource configuration (non-sensitive)\n"@ + "config:\n"@;
        assert(cs =~= hd + config_entries(ca) + "\n"@);
        lemma_contains_widen(hd, config_entries(ca), "\n"@, key);
        assert(values_text(r, c) =~= head + cs + (ss + tail));
        lemma_contains_widen(head, cs, ss + tail, key);
    }
}

/// For every secret attribute of a resource, the key that `values.yaml`
/// sets under `secrets:` is the key that the Secret template reads from
/// `.Values.secrets`: both are the attribute's canonical name. Likewise for
/// config attributes, `config:` and the ConfigMap.
pub proof fn values_feed_the_templates(r: IacResource, c: HelmConfig, j: int)
    requires
        0 <= j < r.attributes@.len(),
    ensures
        r.attributes@[j].sensitive && !r.attributes@[j].computed ==> contains_text(
            values_text(r, c),
            "  "@ + r.attributes@[j].canonical_name@ + ": \"\"\n"@,
        ) && contains_text(
            object_text(kebab(r.name@), secret_attrs(r), true),
            ".Values.secrets."@ + r.attributes@[j].canonical_name@,
        ),
        !r.attributes@[j].sensitive && !r.attributes@[j].computed ==> contains_text(
            values_text(r, c),
            "  "@ + r.attributes@[j].canonical_name@ + ": "@,
        ) && contains_text(
            object_text(kebab(r.name@), config_attrs(r), false),
            ".Values.config."@ + r.attributes@[j].canonical_name@,
        ),
{
    values_keys_are_canonical_names(r, c, j);
    templates_read_canonical_names(r, j);
}

proof fn lemma_in_values_1(r: IacResource, c: HelmConfig, t: Seq<char>)
    requires
        contains_text(workload_block(c), t),
    ensures
        contains_text(values_text(r, c), t),
{
    lemma_contains_prepend("# values.yaml for "@ + r.name@ + "\n"@ + "\n"@, workload_block(c), t);
    lemma_contains_extend("# values.yaml for "@ + r.name@ + "\n"@ + "\n"@ + workload_block(c), service_block(c), t);
    lemma_contains_extend("# values.yaml for "@ + r.name@ + "\n"@ + "\n"@ + workload_block(c) + service_block(c), config_section(config_attrs(r)), t);
    lemma_contains_extend("# values.yaml for "@ + r.name@ + "\n"@ + "\n"@ + workload_block(c) + service_block(c) + config_section(config_attrs(r)), secrets_section(secret_attrs(r)), t);
    lemma_contains_extend("# values.yaml for "@ + r.name@ + "\n"@ + "\n"@ + workload_block(c) + service_block(c) + config_section(config_attrs(r)) + secrets_section(secret_attrs(r)), resources_block(c), t);
    lemma_contains_extend("# values.yaml for "@ + r.name@ + "\n"@ + "\n"@ + workload_block(c) + service_block(c) + config_section(config_attrs(r)) + secrets_section(secret_attrs(r)) + resources_block(c), monitoring_block(c), t);
    lemma_contains_extend("# values.yaml for "@ + r.name@ + "\n"@ + "\n"@ + workload_block(c) + service_block(c) + config_section(config_attrs(r)) + secrets_section(secret_attrs(r)) + resources_block(c) + monitoring_block(c), toggle_block("networkPolicy"@, c.network_policy_enabled), t);
    lemma_contains_extend("# values.yaml for "@ + r.name@ + "\n"@ + "\n"@ + workload_block(c) + service_block(c) + config_section(config_attrs(r)) + secrets_section(secret_attrs(r)) + resources_block(c) + monitoring_block(c) + toggle_block("networkPolicy"@, c.network_policy_enabled), "\n"@, t);
    lemma_contains_extend("# values.yaml for "@ + r.name@ + "\n"@ + "\n"@ + workload_block(c) + service_block(c) + config_section(config_attrs(r)) + secrets_section(secret_attrs(r)) + resources_block(c) + monitoring_block(c) + toggle_block("networkPolicy"@, c.network_policy_enabled) + "\n"@, toggle_block("pdb"@, c.pdb_enabled), t);
    lemma_contains_extend("# values.yaml for "@ + r.name@ + "\n"@ + "\n"@ + workload_block(c) + service_block(c) + config_section(config_attrs(r)) + secrets_section(secret_attrs(r)) + resources_block(c) + monitoring_block(c) + toggle_block("networkPolicy"@, c.network_policy_enabled) + "\n"@ + toggle_block("pdb"@, c.pdb_enabled), "\n"@, t);
    lemma_contains_extend("# values.yaml for "@ + r.name@ + "\n"@ + "\n"@ + workload_block(c) + service_block(c) + config_section(config_attrs(r)) + secrets_section(secret_attrs(r)) + resources_block(c) + monitoring_block(c) + toggle_block("networkPolicy"@, c.network_policy_enabled) + "\n"@ + toggle_block("pdb"@, c.pdb_enabled) + "\n"@, toggle_block("autoscaling"@, c.autoscaling_enabled), t);
}

proof fn lemma_in_values_2(r: IacResource, c: HelmConfig, t: Seq<char>)
    requires
        contains_text(service_block(c), t),
    ensures
        contains_text(values_text(r, c), t),
{
    lemma_contains_prepend("# values.yaml for "@ + r.name@ + "\n"@ + "\n"@ + workload_block(c), service_block(c), t);
    lemma_contains_extend("# values.yaml for "@ + r.name@ + "\n"@ + "\n"@ + workload_block(c) + service_block(c), config_section(config_attrs(r)), t);
    lemma_contains_extend("# values.yaml for "@ + r.name@ + "\n"@ + "\n"@ + workload_block(c) + service_block(c) + config_section(config_attrs(r)), secrets_section(secret_attrs(r)), t);
    lemma_contains_extend("# values.yaml for "@ + r.name@ + "\n"@ + "\n"@ + workload_block(c) + service_block(c) + config_section(config_attrs(r)) + secrets_section(secret_attrs(r)), resources_block(c), t);
    lemma_contains_extend("# values.yaml for "@ + r.name@ + "\n"@ + "\n"@ + workload_block(c) + service_block(c) + config_section(config_attrs(r)) + secrets_section(secret_attrs(r)) + resources_block(c), monitoring_block(c), t);
    lemma_contains_extend("# values.yaml for "@ + r.name@ + "\n"@ + "\n"@ + workload_block(c) + service_block(c) + config_section(config_attrs(r)) + secrets_section(secret_attrs(r)) + resources_block(c) + monitoring_block(c), toggle_block("networkPolicy"@, c.network_policy_enabled), t);
    lemma_contains_extend("# values.yaml for "@ + r.name@ + "\n"@ + "\n"@ + workload_block(c) + service_block(c) + config_section(config_attrs(r)) + secrets_section(secret_attrs(r)) + resources_block(c) + monitoring_block(c) + toggle_block("networkPolicy"@, c.network_policy_enabled), "\n"@, t);
    lemma_contains_extend("# values.yaml for "@ + r.name@ + "\n"@ + "\n"@ + workload_block(c) + service_block(c) + config_section(config_attrs(r)) + secrets_section(secret_attrs(r)) + resources_block(c) + monitoring_block(c) + toggle_block("networkPolicy"@, c.network_policy_enabled) + "\n"@, toggle_block("pdb"@, c.pdb_enabled), t);
    lemma_contains_extend("# values.yaml for "@ + r.name@ + "\n"@ + "\n"@ + workload_block(c) + service_block(c) + config_section(config_attrs(r)) + secrets_section(secret_attrs(r)) + resources_block(c) + monitoring_block(c) + toggle_block("networkPolicy"@, c.network_policy_enabled) + "\n"@ + toggle_block("pdb"@, c.pdb_enabled), "\n"@, t);
    lemma_contains_extend("# values.yaml for "@ + r.name@ + "\n"@ + "\n"@ + workload_block(c) + service_block(c) + config_section(config_attrs(r)) + secrets_section(secret_attrs(r)) + resources_block(c) + monitoring_block(c) + toggle_block("networkPolicy"@, c.network_policy_enabled) + "\n"@ + toggle_block("pdb"@, c.pdb_enabled) + "\n"@, toggle_block("autoscaling"@, c.autoscaling_enabled), t);
}

proof fn lemma_in_values_5(r: IacResource, c: HelmConfig, t: Seq<char>)
    requires
        contains_text(resources_block(c), t),
    ensures
        contains_text(values_text(r, c), t),
{
    lemma_contains_prepend("# values.yaml for "@ + r.name@ + "\n"@ + "\n"@ + workload_block(c) + service_block(c) + config_section(config_attrs(r)) + secrets_section(secret_attrs(r)), resources_block(c), t);
    lemma_contains_extend("# values.yaml for "@ + r.name@ + "\n"@ + "\n"@ + workload_block(c) + service_block(c) + config_section(config_attrs(r)) + secrets_section(secret_attrs(r)) + resources_block(c), monitoring_block(c), t);
    lemma_contains_extend("# values.yaml for "@ + r.name@ + "\n"@ + "\n"@ + workload_block(c) + service_block(c) + config_section(config_attrs(r)) + secrets_section(secret_attrs(r)) + resources_block(c) + monitoring_block(c), toggle_block("networkPolicy"@, c.network_policy_enabled), t);
    lemma_contains_extend("# values.yaml for "@ + r.name@ + "\n"@ + "\n"@ + workload_block(c) + service_block(c) + config_section(config_attrs(r)) + secrets_section(secret_attrs(r)) + resources_block(c) + monitoring_block(c) + toggle_block("networkPolicy"@, c.network_policy_enabled), "\n"@, t);
    lemma_contains_extend("# values.yaml for "@ + r.name@ + "\n"@ + "\n"@ + workload_block(c) + service_block(c) + config_section(config_attrs(r)) + secrets_section(secret_attrs(r)) + resources_block(c) + monitoring_block(c) + toggle_block("networkPolicy"@, c.network_policy_enabled) + "\n"@, toggle_block("pdb"@, c.pdb_enabled), t);
    lemma_contains_extend("# values.yaml for "@ + r.name@ + "\n"@ + "\n"@ + workload_block(c) + service_block(c) + config_section(config_attrs(r)) + secrets_section(secret_attrs(r)) + resources_block(c) + monitoring_block(c) + toggle_block("networkPolicy"@, c.network_policy_enabled) + "\n"@ + toggle_block("pdb"@, c.pdb_enabled), "\n"@, t);
    lemma_contains_extend("# values.yaml for "@ + r.name@ + "\n"@ + "\n"@ + workload_block(c) + service_block(c) + config_section(config_attrs(r)) + secrets_section(secret_attrs(r)) + resources_block(c) + monitoring_block(c) + toggle_block("networkPolicy"@, c.network_policy_enabled) + "\n"@ + toggle_block("pdb"@, c.pdb_enabled) + "\n"@, toggle_block("autoscaling"@, c.autoscaling_enabled), t);
}

proof fn lemma_in_values_6(r: IacResource, c: HelmConfig, t: Seq<char>)
    requires
        contains_text(monitoring_block(c), t),
    ensures
        contains_text(values_text(r, c), t),
{
    lemma_contains_prepend("# values.yaml for "@ + r.name@ + "\n"@ + "\n"@ + workload_block(c) + service_block(c) + config_section(config_attrs(r)) + secrets_section(secret_attrs(r)) + resources_block(c), monitoring_block(c), t);
    lemma_contains_extend("# values.yaml for "@ + r.name@ + "\n"@ + "\n"@ + workload_block(c) + service_block(c) + config_section(config_attrs(r)) + secrets_section(secret_attrs(r)) + resources_block(c) + monitoring_block(c), toggle_block("networkPolicy"@, c.network_policy_enabled), t);
    lemma_contains_extend("# values.yaml for "@ + r.name@ + "\n"@ + "\n"@ + workload_block(c) + service_block(c) + config_section(config_attrs(r)) + secrets_section(secret_attrs(r)) + resources_block(c) + monitoring_block(c) + toggle_block("networkPolicy"@, c.network_policy_enabled), "\n"@, t);
    lemma_contains_extend("# values.yaml for "@ + r.name@ + "\n"@ + "\n"@ + workload_block(c) + service_block(c) + config_section(config_attrs(r)) + secrets_section(secret_attrs(r)) + resources_block(c) + monitoring_block(c) + toggle_block("networkPolicy"@, c.network_policy_enabled) + "\n"@, toggle_block("pdb"@, c.pdb_enabled), t);
    lemma_contains_extend("# values.yaml for "@ + r.name@ + "\n"@ + "\n"@ + workload_block(c) + service_block(c) + config_section(config_attrs(r)) + secrets_section(secret_attrs(r)) + resources_block(c) + monitoring_block(c) + toggle_block("networkPolicy"@, c.network_policy_enabled) + "\n"@ + toggle_block("pdb"@, c.pdb_enabled), "\n"@, t);
    lemma_contains_extend("# values.yaml for "@ + r.name@ + "\n"@ + "\n"@ + workload_block(c) + service_block(c) + config_section(config_attrs(r)) + secrets_section(secret_attrs(r)) + resources_block(c) + monitoring_block(c) + toggle_block("networkPolicy"@, c.network_policy_enabled) + "\n"@ + toggle_block("pdb"@, c.pdb_enabled) + "\n"@, toggle_block("autoscaling"@, c.autoscaling_enabled), t);
}

proof fn lemma_in_values_7(r: IacResource, c: HelmConfig, t: Seq<char>)
    requires
        contains_text(toggle_block("networkPolicy"@, c.network_policy_enabled), t),
    ensures
        contains_text(values_text(r, c), t),
{
    lemma_contains_prepend("# values.yaml for "@ + r.name@ + "\n"@ + "\n"@ + workload_block(c) + service_block(c) + config_section(config_attrs(r)) + secrets_section(secret_attrs(r)) + resources_block(c) + monitoring_block(c), toggle_block("networkPolicy"@, c.network_policy_enabled), t);
    lemma_contains_extend("# values.yaml for "@ + r.name@ + "\n"@ + "\n"@ + workload_block(c) + service_block(c) + config_section(config_attrs(r)) + secrets_section(secret_attrs(r)) + resources_block(c) + monitoring_block(c) + toggle_block("networkPolicy"@, c.network_policy_enabled), "\n"@, t);
    lemma_contains_extend("# values.yaml for "@ + r.name@ + "\n"@ + "\n"@ + workload_block(c) + service_block(c) + config_section(config_attrs(r)) + secrets_section(secret_attrs(r)) + resources_block(c) + monitoring_block(c) + toggle_block("networkPolicy"@, c.network_policy_enabled) + "\n"@, toggle_block("pdb"@, c.pdb_enabled), t);
    lemma_contains_extend("# values.yaml for "@ + r.name@ + "\n"@ + "\n"@ + workload_block(c) + service_block(c) + config_section(config_attrs(r)) + secrets_section(secret_attrs(r)) + resources_block(c) + monitoring_block(c) + toggle_block("networkPolicy"@, c.network_policy_enabled) + "\n"@ + toggle_block("pdb"@, c.pdb_enabled), "\n"@, t);
    lemma_contains_extend("# values.yaml for "@ + r.name@ + "\n"@ + "\n"@ + workload_block(c) + service_block(c) + config_section(config_attrs(r)) + secrets_section(secret_attrs(r)) + resources_block(c) + monitoring_block(c) + toggle_block("networkPolicy"@, c.network_policy_enabled) + "\n"@ + toggle_block("pdb"@, c.pdb_enabled) + "\n"@, toggle_block("autoscaling"@, c.autoscaling_enabled), t);
}

proof fn lemma_in_values_9(r: IacResource, c: HelmConfig, t: Seq<char>)
    requires
        contains_text(toggle_block("pdb"@, c.pdb_enabled), t),
    ensures
        contains_text(values_text(r, c), t),
{
    lemma_contains_prepend("# values.yaml for "@ + r.name@ + "\n"@ + "\n"@ + workload_block(c) + service_block(c) + config_section(config_attrs(r)) + secrets_section(secret_attrs(r)) + resources_block(c) + monitoring_block(c) + toggle_block("networkPolicy"@, c.network_policy_enabled) + "\n"@, toggle_block("pdb"@, c.pdb_enabled), t);
    lemma_contains_extend("# values.yaml for "@ + r.name@ + "\n"@ + "\n"@ + workload_block(c) + service_block(c) + config_section(config_attrs(r)) + secrets_section(secret_attrs(r)) + resources_block(c) + monitoring_block(c) + toggle_block("networkPolicy"@, c.network_policy_enabled) + "\n"@ + toggle_block("pdb"@, c.pdb_enabled), "\n"@, t);
    lemma_contains_extend("# values.yaml for "@ + r.name@ + "\n"@ + "\n"@ + workload_block(c) + service_block(c) + config_section(config_attrs(r)) + secrets_section(secret_attrs(r)) + resources_block(c) + monitoring_block(c) + toggle_block("networkPolicy"@, c.network_policy_enabled) + "\n"@ + toggle_block("pdb"@, c.pdb_enabled) + "\n"@, toggle_block("autoscaling"@, c.autoscaling_enabled), t);
}

proof fn lemma_in_values_11(r: IacResource, c: HelmConfig, t: Seq<char>)
    requires
        contains_text(toggle_block("autoscaling"@, c.autoscaling_enabled), t),
    ensures
        contains_text(values_text(r, c), t),
{
    lemma_contains_prepend("# values.yaml for "@ + r.name@ + "\n"@ + "\n"@ + workload_block(c) + service_block(c) + config_section(config_attrs(r)) + secrets_section(secret_attrs(r)) + resources_block(c) + monitoring_block(c) + toggle_block("networkPolicy"@, c.network_policy_enabled) + "\n"@ + toggle_block("pdb"@, c.pdb_enabled) + "\n"@, toggle_block("autoscaling"@, c.autoscaling_enabled), t);
}

proof fn lemma_values_hold_repo(r: IacResource, c: HelmConfig)
    ensures
        contains_text(values_text(r, c), "  repository: "@ + c.default_image_repository@ + "\n"@),
{
    let t = "  repository: "@ + c.default_image_repository@ + "\n"@;
    assert(workload_block(c) =~= "image:\n"@ + t + ("  tag: latest\n"@ + "  pullPolicy: "@ + c.image_pull_policy@ + "\n"@ + "\n"@ + "replicaCount: "@ + decimal(c.replica_count as nat) + "\n"@ + "\n"@ + "ports:\n"@ + "  - name: http\n"@ + "    containerPort: "@ + decimal(c.default_container_port as nat) + "\n"@ + "    protocol: TCP\n"@ + "\n"@));
    lemma_contains_middle("image:\n"@, t, "  tag: latest\n"@ + "  pullPolicy: "@ + c.image_pull_policy@ + "\n"@ + "\n"@ + "replicaCount: "@ + decimal(c.replica_count as nat) + "\n"@ + "\n"@ + "ports:\n"@ + "  - name: http\n"@ + "    containerPort: "@ + decimal(c.default_container_port as nat) + "\n"@ + "    protocol: TCP\n"@ + "\n"@);
    lemma_in_values_1(r, c, t);
}

proof fn lemma_values_hold_policy(r: IacResource, c: HelmConfig)
    ensures
        contains_text(values_text(r, c), "  pullPolicy: "@ + c.image_pull_policy@ + "\n"@),
{
    let t = "  pullPolicy: "@ + c.image_pull_policy@ + "\n"@;
    let wpre = "image:\n"@ + "  repository: "@ + c.default_image_repository@ + "\n"@ + "  tag: latest\n"@;
    let wpost = "\n"@ + "replicaCount: "@ + decimal(c.replica_count as nat) + "\n"@ + "\n"@ + "ports:\n"@ + "  - name: http\n"@ + "    containerPort: "@ + decimal(c.default_container_port as nat) + "\n"@ + "    protocol: TCP\n"@ + "\n"@;
    assert(workload_block(c) =~= wpre + t + wpost);
    lemma_contains_middle(wpre, t, wpost);
    lemma_in_values_1(r, c, t);
}

proof fn lemma_values_hold_service(r: IacResource, c: HelmConfig)
    ensures
        contains_text(values_text(r, c), "service:\n"@ + "  type: "@ + c.default_service_type@ + "\n"@),
{
    let t = "service:\n"@ + "  type: "@ + c.default_service_type@ + "\n"@;
    let spost = "  ports:\n"@ + "    - name: http\n"@ + "      port: 80\n"@ + "      targetPort: http\n"@ + "      protocol: TCP\n"@ + "\n"@;
    assert(service_block(c) =~= Seq::<char>::empty() + t + spost);
    lemma_contains_middle(Seq::<char>::empty(), t, spost);
    lemma_in_values_2(r, c, t);
}

proof fn lemma_values_hold_requests(r: IacResource, c: HelmConfig)
    ensures
        contains_text(values_text(r, c), "  requests:\n"@ + "    cpu: "@ + c.cpu_request@ + "\n"@ + "    memory: "@ + c.memory_request@ + "\n"@),
{
    let t = "  requests:\n"@ + "    cpu: "@ + c.cpu_request@ + "\n"@ + "    memory: "@ + c.memory_request@ + "\n"@;
    let rpost = "  limits:\n"@ + "    cpu: "@ + c.cpu_limit@ + "\n"@ + "    memory: "@ + c.memory_limit@ + "\n"@ + "\n"@;
    assert(resources_block(c) =~= "resources:\n"@ + t + rpost);
    lemma_contains_middle("resources:\n"@, t, rpost);
    lemma_in_values_5(r, c, t);
}

proof fn lemma_values_hold_limits(r: IacResource, c: HelmConfig)
    ensures
        contains_text(values_text(r, c), "  limits:\n"@ + "    cpu: "@ + c.cpu_limit@ + "\n"@ + "    memory: "@ + c.memory_limit@ + "\n"@),
{
    let t = "  limits:\n"@ + "    cpu: "@ + c.cpu_limit@ + "\n"@ + "    memory: "@ + c.memory_limit@ + "\n"@;
    let lpre = "resources:\n"@ + "  requests:\n"@ + "    cpu: "@ + c.cpu_request@ + "\n"@ + "    memory: "@ + c.memory_request@ + "\n"@;
    assert(resources_block(c) =~= lpre + t + "\n"@);
    lemma_contains_middle(lpre, t, "\n"@);
    lemma_in_values_5(r, c, t);
}

proof fn lemma_values_hold_monitoring(r: IacResource, c: HelmConfig)
    ensures
        contains_text(values_text(r, c), "monitoring:\n"@ + "  enabled: "@ + (if c.monitoring_enabled { "true"@ } else { "false"@ }) + "\n"@),
{
    let t = "monitoring:\n"@ + "  enabled: "@ + (if c.monitoring_enabled { "true"@ } else { "false"@ }) + "\n"@;
    let mpost = "  alerting:\n"@ + "    enabled: false\n"@ + "  interval: 30s\n"@ + "  port: metrics\n"@ + "  path: /metrics\n"@ + "\n"@;
    assert(monitoring_block(c) =~= Seq::<char>::empty() + t + mpost);
    lemma_contains_middle(Seq::<char>::empty(), t, mpost);
    lemma_in_values_6(r, c, t);
}

proof fn lemma_values_hold_network(r: IacResource, c: HelmConfig)
    ensures
        contains_text(values_text(r, c), "networkPolicy"@ + ":\n"@ + "  enabled: "@ + (if c.network_policy_enabled { "true"@ } else { "false"@ }) + "\n"@),
{
    let t = "networkPolicy"@ + ":\n"@ + "  enabled: "@ + (if c.network_policy_enabled { "true"@ } else { "false"@ }) + "\n"@;
    assert(toggle_block("networkPolicy"@, c.network_policy_enabled) =~= Seq::<char>::empty() + t + Seq::<char>::empty());
    lemma_contains_middle(Seq::<char>::empty(), t, Seq::<char>::empty());
    lemma_in_values_7(r, c, t);
}

proof fn lemma_values_hold_pdb(r: IacResource, c: HelmConfig)
    ensures
        contains_text(values_text(r, c), "pdb"@ + ":\n"@ + "  enabled: "@ + (if c.pdb_enabled { "true"@ } else { "false"@ }) + "\n"@),
{
    let t = "pdb"@ + ":\n"@ + "  enabled: "@ + (if c.pdb_enabled { "true"@ } else { "false"@ }) + "\n"@;
    assert(toggle_block("pdb"@, c.pdb_enabled) =~= Seq::<char>::empty() + t + Seq::<char>::empty());
    lemma_contains_middle(Seq::<char>::empty(), t, Seq::<char>::empty());
    lemma_in_values_9(r, c, t);
}

proof fn lemma_values_hold_autoscaling(r: IacResource, c: HelmConfig)
    ensures
        contains_text(values_text(r, c), "autoscaling"@ + ":\n"@ + "  enabled: "@ + (if c.autoscaling_enabled { "true"@ } else { "false"@ }) + "\n"@),
{
    let t = "autoscaling"@ + ":\n"@ + "  enabled: "@ + (if c.autoscaling_enabled { "true"@ } else { "false"@ }) + "\n"@;
    assert(toggle_block("autoscaling"@, c.autoscaling_enabled) =~= Seq::<char>::empty() + t + Seq::<char>::empty());
    lemma_contains_middle(Seq::<char>::empty(), t, Seq::<char>::empty());
    lemma_in_values_11(r, c, t);
}

/// `values.yaml` carries the configuration: the image repository and pull
/// policy, the service type, the resource requests and limits (each cpu and
/// memory under its own group), whether monitoring is on, and each feature
/// toggle under its own name, all as configured.
pub proof fn values_reflect_config(r: IacResource, c: HelmConfig)
    ensures
        contains_text(values_text(r, c), "  repository: "@ + c.default_image_repository@ + "\n"@),
        contains_text(values_text(r, c), "  pullPolicy: "@ + c.image_pull_policy@ + "\n"@),
        contains_text(values_text(r, c), "service:\n"@ + "  type: "@ + c.default_service_type@ + "\n"@),
        contains_text(values_text(r, c), "  requests:\n"@ + "    cpu: "@ + c.cpu_request@ + "\n"@ + "    memory: "@ + c.memory_request@ + "\n"@),
        contains_text(values_text(r, c), "  limits:\n"@ + "    cpu: "@ + c.cpu_limit@ + "\n"@ + "    memory: "@ + c.memory_limit@ + "\n"@),
        contains_text(values_text(r, c), "monitoring:\n"@ + "  enabled: "@ + (if c.monitoring_enabled { "true"@ } else { "false"@ }) + "\n"@),
        contains_text(values_text(r, c), "networkPolicy"@ + ":\n"@ + "  enabled: "@ + (if c.network_policy_enabled { "true"@ } else { "false"@ }) + "\n"@),
        contains_text(values_text(r, c), "pdb"@ + ":\n"@ + "  enabled: "@ + (if c.pdb_enabled { "true"@ } else { "false"@ }) + "\n"@),
        contains_text(values_text(r, c), "autoscaling"@ + ":\n"@ + "  enabled: "@ + (if c.autoscaling_enabled { "true"@ } else { "false"@ }) + "\n"@),
{
    lemma_values_hold_repo(r, c);
    lemma_values_hold_policy(r, c);
    lemma_values_hold_service(r, c);
    lemma_values_hold_requests(r, c);
    lemma_values_hold_limits(r, c);
    lemma_values_hold_monitoring(r, c);
    lemma_values_hold_network(r, c);
    lemma_values_hold_pdb(r, c);
    lemma_values_hold_autoscaling(r, c);
}

} // verus!
