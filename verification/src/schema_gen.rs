//! The JSON Schema of a chart's `values.yaml`: the resource's attributes
//! (config and secrets) and the standard pleme-lib values.

use vstd::prelude::*;

use crate::ir::{IacAttribute, IacResource, IacType};
use crate::json::{
    entry_models, json_get, key_pos, lemma_key_pos_append, models, obj_get, obj_insert, obj_set, push_entry,
    push_item, then_get, Json, JsonValue,
};
use crate::traits::{config_attrs, derefs, secret_attrs, AttributeFilter, DefaultAttributeFilter};
use crate::type_map::{iac_type_to_json_schema, json_schema_type, type_only, type_schema};

verus! {

/// `{"type": "object", "properties": props}`.
pub open spec fn object_of(props: Seq<(Seq<char>, Json)>) -> Json {
    Json::Object(seq![("type"@, Json::Str("object"@)), ("properties"@, Json::Object(props))])
}

/// `{"type": "string", "enum": values}`.
pub open spec fn enum_of(values: Seq<Seq<char>>) -> Json {
    Json::Object(
        seq![
            ("type"@, Json::Str("string"@)),
            ("enum"@, Json::Array(values.map_values(|v: Seq<char>| Json::Str(v)))),
        ],
    )
}

/// `{"type": "array", "items": item}`.
pub open spec fn array_of(item: Json) -> Json {
    Json::Object(seq![("type"@, Json::Str("array"@)), ("items"@, item)])
}

/// The schema of one attribute: the schema of its type, with its
/// description, its default value, and `minLength: 1` when it is a required
/// string.
pub open spec fn field_schema(a: IacAttribute) -> Json {
    match type_schema(a.iac_type) {
        Json::Object(m) => {
            let m1 = if a.description@.len() > 0 {
                obj_set(m, "description"@, Json::Str(a.description@))
            } else {
                m
            };
            let m2 = match a.default_value {
                Some(d) => obj_set(m1, "default"@, d@),
                None => m1,
            };
            let m3 = if a.required && a.iac_type is String {
                obj_set(m2, "minLength"@, Json::Number("1"@))
            } else {
                m2
            };
            Json::Object(m3)
        },
        other => other,
    }
}

/// The properties of a section: each attribute's schema under its canonical
/// name, set in order.
pub open spec fn section_props(attrs: Seq<IacAttribute>) -> Seq<(Seq<char>, Json)>
    decreases attrs.len(),
{
    if attrs.len() == 0 {
        Seq::empty()
    } else {
        obj_set(section_props(attrs.drop_last()), attrs.last().canonical_name@, field_schema(attrs.last()))
    }
}

/// The schema of a section (config or secrets) of attributes.
pub open spec fn section_schema(attrs: Seq<IacAttribute>) -> Json {
    Json::Object(
        seq![("type"@, Json::Str("object"@)), ("properties"@, Json::Object(section_props(attrs)))]
            + if crate::type_map::required_names(attrs).len() > 0 {
            seq![("required"@, Json::Array(crate::type_map::required_names(attrs)))]
        } else {
            Seq::empty()
        },
    )
}

/// The schema of the `image` block.
pub open spec fn image_schema_spec() -> Json {
    object_of(
        seq![
            ("repository"@, type_only("string"@)),
            ("tag"@, type_only("string"@)),
            ("pullPolicy"@, enum_of(seq!["Always"@, "IfNotPresent"@, "Never"@])),
        ],
    )
}

/// The schema of the `resources` block.
pub open spec fn resources_schema_spec() -> Json {
    let quantity = seq![("cpu"@, type_only("string"@)), ("memory"@, type_only("string"@))];
    object_of(seq![("requests"@, object_of(quantity)), ("limits"@, object_of(quantity))])
}

/// The schema of the `monitoring` block.
pub open spec fn monitoring_schema_spec() -> Json {
    object_of(
        seq![
            ("enabled"@, type_only("boolean"@)),
            ("alerting"@, object_of(seq![("enabled"@, type_only("boolean"@))])),
            ("interval"@, type_only("string"@)),
            ("port"@, type_only("string"@)),
            ("path"@, type_only("string"@)),
        ],
    )
}

/// The schema of the `ports` array.
pub open spec fn ports_schema_spec() -> Json {
    array_of(
        object_of(
            seq![
                ("name"@, type_only("string"@)),
                ("containerPort"@, type_only("integer"@)),
                ("protocol"@, type_only("string"@)),
            ],
        ),
    )
}

/// The schema of the `service` block.
pub open spec fn service_schema_spec() -> Json {
    object_of(
        seq![
            ("type"@, enum_of(seq!["ClusterIP"@, "NodePort"@, "LoadBalancer"@])),
            (
                "ports"@,
                array_of(
                    object_of(
                        seq![
                            ("name"@, type_only("string"@)),
                            ("port"@, type_only("integer"@)),
                            ("targetPort"@, type_only("string"@)),
                            ("protocol"@, type_only("string"@)),
                        ],
                    ),
                ),
            ),
        ],
    )
}

/// The schema of a `{ enabled: bool }` toggle.
pub open spec fn toggle_schema_spec() -> Json {
    object_of(seq![("enabled"@, type_only("boolean"@))])
}

/// The standard pleme-lib value properties.
pub open spec fn standard_props() -> Seq<(Seq<char>, Json)> {
    seq![
        ("image"@, image_schema_spec()),
        (
            "replicaCount"@,
            Json::Object(seq![("type"@, Json::Str("integer"@)), ("default"@, Json::Number("1"@))]),
        ),
        ("ports"@, ports_schema_spec()),
        ("service"@, service_schema_spec()),
        ("resources"@, resources_schema_spec()),
        ("monitoring"@, monitoring_schema_spec()),
        ("networkPolicy"@, toggle_schema_spec()),
        ("pdb"@, toggle_schema_spec()),
        ("autoscaling"@, toggle_schema_spec()),
    ]
}

/// The properties of the values schema: `config` and `secrets` when the
/// resource has such attributes, then the standard pleme-lib values.
pub open spec fn values_props(r: IacResource) -> Seq<(Seq<char>, Json)> {
    (if config_attrs(r).len() > 0 {
        seq![("config"@, section_schema(config_attrs(r)))]
    } else {
        Seq::empty()
    }) + (if secret_attrs(r).len() > 0 {
        seq![("secrets"@, section_schema(secret_attrs(r)))]
    } else {
        Seq::empty()
    }) + standard_props()
}

/// The JSON Schema (draft 2020-12) that validates a resource chart's values.
pub open spec fn values_schema_spec(r: IacResource) -> Json {
    Json::Object(
        seq![
            ("$schema"@, Json::Str("https://json-schema.org/draft/2020-12/schema"@)),
            ("type"@, Json::Str("object"@)),
            ("title"@, Json::Str(r.name@ + " values"@)),
            ("properties"@, Json::Object(values_props(r))),
        ],
    )
}

/// `{"type": "object", "properties": properties}`.
pub fn object_schema(properties: Vec<(String, JsonValue)>) -> (res: JsonValue)
    ensures
        res@ == object_of(entry_models(properties@)),
{
    let ghost p = entry_models(properties@);
    let mut e: Vec<(String, JsonValue)> = Vec::new();
    assert(entry_models(e@) =~= Seq::empty());
    push_entry(&mut e, "type", JsonValue::string("object"));
    push_entry(&mut e, "properties", JsonValue::Object(properties));
    assert(entry_models(e@) =~= seq![("type"@, Json::Str("object"@)), ("properties"@, Json::Object(p))]);
    JsonValue::Object(e)
}

/// `{"type": "string", "enum": values}`.
pub fn enum_schema(values: &[&str]) -> (res: JsonValue)
    ensures
        res@ == enum_of(values@.map_values(|v: &str| v@)),
{
    let ghost vs = values@.map_values(|v: &str| v@);
    let mut items: Vec<JsonValue> = Vec::new();
    assert(models(items@) =~= Seq::empty());
    let mut i: usize = 0;
    while i < values.len()
        invariant
            0 <= i <= values.len(),
            vs == values@.map_values(|v: &str| v@),
            models(items@) == vs.take(i as int).map_values(|v: Seq<char>| Json::Str(v)),
        decreases values.len() - i,
    {
        push_item(&mut items, JsonValue::string(values[i]));
        assert(vs.take(i + 1).map_values(|v: Seq<char>| Json::Str(v)) =~= vs.take(i as int).map_values(
            |v: Seq<char>| Json::Str(v),
        ).push(Json::Str(values@[i as int]@)));
        i = i + 1;
    }
    assert(vs.take(values.len() as int) =~= vs);
    let ghost im = models(items@);
    let mut e: Vec<(String, JsonValue)> = Vec::new();
    assert(entry_models(e@) =~= Seq::empty());
    push_entry(&mut e, "type", JsonValue::string("string"));
    push_entry(&mut e, "enum", JsonValue::Array(items));
    assert(entry_models(e@) =~= seq![("type"@, Json::Str("string"@)), ("enum"@, Json::Array(im))]);
    JsonValue::Object(e)
}

/// `{"type": "array", "items": item}`.
fn array_schema(item: JsonValue) -> (res: JsonValue)
    ensures
        res@ == array_of(item@),
{
    let ghost im = item@;
    let mut e: Vec<(String, JsonValue)> = Vec::new();
    assert(entry_models(e@) =~= Seq::empty());
    push_entry(&mut e, "type", JsonValue::string("array"));
    push_entry(&mut e, "items", item);
    assert(entry_models(e@) =~= seq![("type"@, Json::Str("array"@)), ("items"@, im)]);
    JsonValue::Object(e)
}

/// `{"type": "string"}`.
pub fn string_schema() -> (res: JsonValue)
    ensures
        res@ == type_only("string"@),
{
    json_schema_type("string")
}

/// `{"type": "integer"}`.
pub fn integer_schema() -> (res: JsonValue)
    ensures
        res@ == type_only("integer"@),
{
    json_schema_type("integer")
}

/// `{"type": "boolean"}`.
pub fn bool_schema() -> (res: JsonValue)
    ensures
        res@ == type_only("boolean"@),
{
    json_schema_type("boolean")
}

/// `{"type": "integer", "default": 1}`.
pub fn integer_with_default_one() -> (res: JsonValue)
    ensures
        res@ == Json::Object(seq![("type"@, Json::Str("integer"@)), ("default"@, Json::Number("1"@))]),
{
    let mut e: Vec<(String, JsonValue)> = Vec::new();
    assert(entry_models(e@) =~= Seq::empty());
    push_entry(&mut e, "type", JsonValue::string("integer"));
    push_entry(&mut e, "default", JsonValue::Number(String::from_str("1")));
    assert(entry_models(e@) =~= seq![("type"@, Json::Str("integer"@)), ("default"@, Json::Number("1"@))]);
    JsonValue::Object(e)
}

/// The schema of the `image` block, with the pull policy enumeration.
pub fn image_schema() -> (res: JsonValue)
    ensures
        res@ == image_schema_spec(),
{
    let mut p: Vec<(String, JsonValue)> = Vec::new();
    assert(entry_models(p@) =~= Seq::empty());
    push_entry(&mut p, "repository", string_schema());
    push_entry(&mut p, "tag", string_schema());
    let policies: [&str; 3] = ["Always", "IfNotPresent", "Never"];
    let pull = enum_schema(&policies);
    assert(policies@.map_values(|v: &str| v@) =~= seq!["Always"@, "IfNotPresent"@, "Never"@]);
    push_entry(&mut p, "pullPolicy", pull);
    assert(entry_models(p@) =~= seq![
        ("repository"@, type_only("string"@)),
        ("tag"@, type_only("string"@)),
        ("pullPolicy"@, enum_of(seq!["Always"@, "IfNotPresent"@, "Never"@])),
    ]);
    object_schema(p)
}

/// The schema of `cpu` and `memory` quantities.
fn quantity_schema() -> (res: JsonValue)
    ensures
        res@ == object_of(seq![("cpu"@, type_only("string"@)), ("memory"@, type_only("string"@))]),
{
    let mut p: Vec<(String, JsonValue)> = Vec::new();
    assert(entry_models(p@) =~= Seq::empty());
    push_entry(&mut p, "cpu", string_schema());
    push_entry(&mut p, "memory", string_schema());
    assert(entry_models(p@) =~= seq![("cpu"@, type_only("string"@)), ("memory"@, type_only("string"@))]);
    object_schema(p)
}

/// The schema of the `resources` block (requests and limits).
pub fn resources_schema() -> (res: JsonValue)
    ensures
        res@ == resources_schema_spec(),
{
    let ghost q = object_of(seq![("cpu"@, type_only("string"@)), ("memory"@, type_only("string"@))]);
    let mut p: Vec<(String, JsonValue)> = Vec::new();
    assert(entry_models(p@) =~= Seq::empty());
    push_entry(&mut p, "requests", quantity_schema());
    push_entry(&mut p, "limits", quantity_schema());
    assert(entry_models(p@) =~= seq![("requests"@, q), ("limits"@, q)]);
    object_schema(p)
}

/// The schema of the `monitoring` block.
pub fn monitoring_schema() -> (res: JsonValue)
    ensures
        res@ == monitoring_schema_spec(),
{
    let mut a: Vec<(String, JsonValue)> = Vec::new();
    assert(entry_models(a@) =~= Seq::empty());
    push_entry(&mut a, "enabled", bool_schema());
    assert(entry_models(a@) =~= seq![("enabled"@, type_only("boolean"@))]);
    let alerting = object_schema(a);
    let mut p: Vec<(String, JsonValue)> = Vec::new();
    assert(entry_models(p@) =~= Seq::empty());
    push_entry(&mut p, "enabled", bool_schema());
    push_entry(&mut p, "alerting", alerting);
    push_entry(&mut p, "interval", string_schema());
    push_entry(&mut p, "port", string_schema());
    push_entry(&mut p, "path", string_schema());
    assert(entry_models(p@) =~= seq![
        ("enabled"@, type_only("boolean"@)),
        ("alerting"@, object_of(seq![("enabled"@, type_only("boolean"@))])),
        ("interval"@, type_only("string"@)),
        ("port"@, type_only("string"@)),
        ("path"@, type_only("string"@)),
    ]);
    object_schema(p)
}

/// The schema of the `ports` array of container ports.
pub fn ports_schema() -> (res: JsonValue)
    ensures
        res@ == ports_schema_spec(),
{
    let mut p: Vec<(String, JsonValue)> = Vec::new();
    assert(entry_models(p@) =~= Seq::empty());
    push_entry(&mut p, "name", string_schema());
    push_entry(&mut p, "containerPort", integer_schema());
    push_entry(&mut p, "protocol", string_schema());
    assert(entry_models(p@) =~= seq![
        ("name"@, type_only("string"@)),
        ("containerPort"@, type_only("integer"@)),
        ("protocol"@, type_only("string"@)),
    ]);
    array_schema(object_schema(p))
}

/// The schema of the `service` block.
pub fn service_schema() -> (res: JsonValue)
    ensures
        res@ == service_schema_spec(),
{
    let mut pp: Vec<(String, JsonValue)> = Vec::new();
    assert(entry_models(pp@) =~= Seq::empty());
    push_entry(&mut pp, "name", string_schema());
    push_entry(&mut pp, "port", integer_schema());
    push_entry(&mut pp, "targetPort", string_schema());
    push_entry(&mut pp, "protocol", string_schema());
    assert(entry_models(pp@) =~= seq![
        ("name"@, type_only("string"@)),
        ("port"@, type_only("integer"@)),
        ("targetPort"@, type_only("string"@)),
        ("protocol"@, type_only("string"@)),
    ]);
    let ports = array_schema(object_schema(pp));
    let ghost pm = ports@;
    let types: [&str; 3] = ["ClusterIP", "NodePort", "LoadBalancer"];
    let svc_type = enum_schema(&types);
    assert(types@.map_values(|v: &str| v@) =~= seq!["ClusterIP"@, "NodePort"@, "LoadBalancer"@]);
    let ghost tm = svc_type@;
    let mut p: Vec<(String, JsonValue)> = Vec::new();
    assert(entry_models(p@) =~= Seq::empty());
    push_entry(&mut p, "type", svc_type);
    push_entry(&mut p, "ports", ports);
    assert(entry_models(p@) =~= seq![("type"@, tm), ("ports"@, pm)]);
    object_schema(p)
}

/// The schema of a `{ enabled: bool }` toggle.
pub fn enabled_toggle_schema() -> (res: JsonValue)
    ensures
        res@ == toggle_schema_spec(),
{
    let mut p: Vec<(String, JsonValue)> = Vec::new();
    assert(entry_models(p@) =~= Seq::empty());
    push_entry(&mut p, "enabled", bool_schema());
    assert(entry_models(p@) =~= seq![("enabled"@, type_only("boolean"@))]);
    object_schema(p)
}

/// The schema of one attribute.
fn attribute_schema(attr: &IacAttribute) -> (res: JsonValue)
    ensures
        res@ == field_schema(*attr),
{
    let schema = iac_type_to_json_schema(&attr.iac_type);
    match schema {
        JsonValue::Object(mut m) => {
            let ghost m0 = entry_models(m@);
            if attr.description.as_str().unicode_len() > 0 {
                obj_insert(&mut m, String::from_str("description"), JsonValue::Str(attr.description.clone()));
            }
            let ghost m1 = entry_models(m@);
            match &attr.default_value {
                Some(d) => {
                    obj_insert(&mut m, String::from_str("default"), d.copy());
                },
                None => {},
            }
            let ghost m2 = entry_models(m@);
            let is_string = match attr.iac_type {
                IacType::String => true,
                _ => false,
            };
            if attr.required && is_string {
                obj_insert(&mut m, String::from_str("minLength"), JsonValue::Number(String::from_str("1")));
            }
            JsonValue::Object(m)
        },
        other => other,
    }
}

/// The properties of a section.
fn section_properties(attrs: &Vec<&IacAttribute>) -> (res: Vec<(String, JsonValue)>)
    ensures
        entry_models(res@) == section_props(derefs(attrs@)),
{
    let ghost all = derefs(attrs@);
    let mut out: Vec<(String, JsonValue)> = Vec::new();
    assert(entry_models(out@) =~= Seq::empty());
    let mut i: usize = 0;
    while i < attrs.len()
        invariant
            0 <= i <= attrs.len(),
            all == derefs(attrs@),
            entry_models(out@) == section_props(all.take(i as int)),
        decreases attrs.len() - i,
    {
        assert(all.take(i + 1).drop_last() =~= all.take(i as int));
        assert(all[i as int] == *attrs[i as int]);
        let schema = attribute_schema(attrs[i]);
        obj_insert(&mut out, attrs[i].canonical_name.clone(), schema);
        i = i + 1;
    }
    assert(all.take(attrs.len() as int) =~= all);
    out
}

/// The names of the required attributes among `attrs`, as JSON strings.
fn required_of(attrs: &Vec<&IacAttribute>) -> (res: Vec<JsonValue>)
    ensures
        models(res@) == crate::type_map::required_names(derefs(attrs@)),
{
    let ghost all = derefs(attrs@);
    let mut out: Vec<JsonValue> = Vec::new();
    assert(models(out@) =~= Seq::empty());
    let mut i: usize = 0;
    while i < attrs.len()
        invariant
            0 <= i <= attrs.len(),
            all == derefs(attrs@),
            models(out@) == crate::type_map::required_names(all.take(i as int)),
        decreases attrs.len() - i,
    {
        assert(all.take(i + 1).drop_last() =~= all.take(i as int));
        assert(all[i as int] == *attrs[i as int]);
        if attrs[i].required {
            push_item(&mut out, JsonValue::Str(attrs[i].canonical_name.clone()));
        }
        i = i + 1;
    }
    assert(all.take(attrs.len() as int) =~= all);
    out
}

/// The schema of a group of attributes: an object with each attribute's
/// schema as a property and the required ones listed under `required`.
pub fn build_section_schema(attrs: &Vec<&IacAttribute>) -> (res: JsonValue)
    ensures
        res@ == section_schema(derefs(attrs@)),
{
    let props = section_properties(attrs);
    let required = required_of(attrs);
    let ghost r = models(required@);
    proof {
        crate::json::lemma_models_index(required@);
    }
    let mut e: Vec<(String, JsonValue)> = Vec::new();
    assert(entry_models(e@) =~= Seq::empty());
    push_entry(&mut e, "type", JsonValue::string("object"));
    push_entry(&mut e, "properties", JsonValue::Object(props));
    let ghost head = seq![
        ("type"@, Json::Str("object"@)),
        ("properties"@, Json::Object(section_props(derefs(attrs@)))),
    ];
    assert(entry_models(e@) =~= head);
    if required.len() > 0 {
        push_entry(&mut e, "required", JsonValue::Array(required));
        assert(entry_models(e@) =~= head + seq![("required"@, Json::Array(r))]);
    } else {
        assert(entry_models(e@) =~= head + Seq::<(Seq<char>, Json)>::empty());
    }
    JsonValue::Object(e)
}

/// The JSON Schema that validates a resource chart's `values.yaml`: the
/// resource's config and secret attributes, and the standard pleme-lib values
/// (image, replica count, ports, service, resources, monitoring, network
/// policy, disruption budget, autoscaling).
pub fn build_values_schema(resource: &IacResource) -> (res: JsonValue)
    ensures
        res@ == values_schema_spec(*resource),
{
    let mut root: Vec<(String, JsonValue)> = Vec::new();
    assert(entry_models(root@) =~= Seq::empty());
    push_entry(&mut root, "$schema", JsonValue::string("https://json-schema.org/draft/2020-12/schema"));
    push_entry(&mut root, "type", JsonValue::string("object"));
    let mut title = resource.name.clone();
    title.append(" values");
    push_entry(&mut root, "title", JsonValue::Str(title));
    let mut props: Vec<(String, JsonValue)> = Vec::new();
    assert(entry_models(props@) =~= Seq::empty());
    let filter = DefaultAttributeFilter;
    let config_list = filter.config_attributes(resource);
    if config_list.len() > 0 {
        push_entry(&mut props, "config", build_section_schema(&config_list));
    }
    let secret_list = filter.secret_attributes(resource);
    if secret_list.len() > 0 {
        push_entry(&mut props, "secrets", build_section_schema(&secret_list));
    }
    let ghost lead = entry_models(props@);
    assert(lead =~= (if config_attrs(*resource).len() > 0 {
        seq![("config"@, section_schema(config_attrs(*resource)))]
    } else {
        Seq::empty()
    }) + (if secret_attrs(*resource).len() > 0 {
        seq![("secrets"@, section_schema(secret_attrs(*resource)))]
    } else {
        Seq::empty()
    }));
    push_entry(&mut props, "image", image_schema());
    push_entry(&mut props, "replicaCount", integer_with_default_one());
    push_entry(&mut props, "ports", ports_schema());
    push_entry(&mut props, "service", service_schema());
    push_entry(&mut props, "resources", resources_schema());
    push_entry(&mut props, "monitoring", monitoring_schema());
    push_entry(&mut props, "networkPolicy", enabled_toggle_schema());
    push_entry(&mut props, "pdb", enabled_toggle_schema());
    push_entry(&mut props, "autoscaling", enabled_toggle_schema());
    assert(entry_models(props@) =~= lead + standard_props());
    let ghost pm = entry_models(props@);
    push_entry(&mut root, "properties", JsonValue::Object(props));
    assert(entry_models(root@) =~= seq![
        ("$schema"@, Json::Str("https://json-schema.org/draft/2020-12/schema"@)),
        ("type"@, Json::Str("object"@)),
        ("title"@, Json::Str(resource.name@ + " values"@)),
        ("properties"@, Json::Object(pm)),
    ]);
    JsonValue::Object(root)
}

/// The schema under `properties.resources.properties.<group>.properties.<field>`
/// of a values schema.
pub open spec fn quantity_schema_at(schema: Json, group: Seq<char>, field: Seq<char>) -> Option<Json> {
    then_get(
        then_get(
            then_get(then_get(then_get(json_get(schema, "properties"@), "resources"@), "properties"@), group),
            "properties"@,
        ),
        field,
    )
}

proof fn lemma_resources_in_values(r: IacResource)
    ensures
        then_get(json_get(values_schema_spec(r), "properties"@), "resources"@) == Some(resources_schema_spec()),
{
    reveal_strlit("resources");
    reveal_strlit("autoscaling");
    reveal_strlit("pdb");
    reveal_strlit("networkPolicy");
    reveal_strlit("monitoring");
    let sp = standard_props();
    let k = "resources"@;
    assert(k.len() == 9);
    assert("autoscaling"@.len() == 11);
    assert("pdb"@.len() == 3);
    assert("networkPolicy"@.len() == 13);
    assert("monitoring"@.len() == 10);
    assert(key_pos(sp.drop_last().drop_last().drop_last().drop_last(), k) == 4) by {
        assert(sp.drop_last().drop_last().drop_last().drop_last().last().0 == k);
    }
    let s1 = sp.drop_last();
    let s2 = s1.drop_last();
    let s3 = s2.drop_last();
    let s4 = s3.drop_last();
    assert(sp.last().0 != k);
    assert(s1.last().0 != k);
    assert(s2.last().0 != k);
    assert(s3.last().0 != k);
    assert(key_pos(s3, k) == key_pos(s4, k));
    assert(key_pos(s2, k) == key_pos(s3, k));
    assert(key_pos(s1, k) == key_pos(s2, k));
    assert(key_pos(sp, k) == key_pos(s1, k));
    assert(key_pos(sp, k) == 4);
    let pre = (if config_attrs(r).len() > 0 {
        seq![("config"@, section_schema(config_attrs(r)))]
    } else {
        Seq::empty()
    }) + (if secret_attrs(r).len() > 0 {
        seq![("secrets"@, section_schema(secret_attrs(r)))]
    } else {
        Seq::empty()
    });
    assert(values_props(r) == pre + sp);
    lemma_key_pos_append(pre, sp, k);
    assert((pre + sp)[pre.len() + 4int] == sp[4]);
    reveal_strlit("properties");
    reveal_strlit("title");
    let top = seq![
        ("$schema"@, Json::Str("https://json-schema.org/draft/2020-12/schema"@)),
        ("type"@, Json::Str("object"@)),
        ("title"@, Json::Str(r.name@ + " values"@)),
        ("properties"@, Json::Object(values_props(r))),
    ];
    assert(key_pos(top, "properties"@) == 3);
}

proof fn lemma_quantities(group: Seq<char>, field: Seq<char>)
    requires
        group == "requests"@ || group == "limits"@,
        field == "cpu"@ || field == "memory"@,
    ensures
        then_get(then_get(then_get(json_get(resources_schema_spec(), "properties"@), group), "properties"@), field)
            == Some(Json::Object(seq![("type"@, Json::Str("string"@))])),
{
    reveal_strlit("requests");
    reveal_strlit("limits");
    reveal_strlit("cpu");
    reveal_strlit("memory");
    reveal_strlit("properties");
    reveal_strlit("type");
    let quantity = seq![("cpu"@, type_only("string"@)), ("memory"@, type_only("string"@))];
    let groups = seq![("requests"@, object_of(quantity)), ("limits"@, object_of(quantity))];
    assert("limits"@.len() == 6);
    assert("requests"@.len() == 8);
    assert(groups.last().0 == "limits"@);
    assert("limits"@ != "requests"@);
    let o = seq![("type"@, Json::Str("object"@)), ("properties"@, Json::Object(groups))];
    assert(key_pos(o, "properties"@) == 1);
    if group == "requests"@ {
        assert(groups.last().0 != group);
        assert(key_pos(groups, group) == key_pos(groups.drop_last(), group));
        assert(groups.drop_last().last().0 == group);
        assert(key_pos(groups, group) == 0);
    } else {
        assert(key_pos(groups, group) == 1);
    }
    let q = seq![("type"@, Json::Str("object"@)), ("properties"@, Json::Object(quantity))];
    assert(key_pos(q, "properties"@) == 1);
    assert("cpu"@.len() == 3);
    assert("memory"@.len() == 6);
    if field == "cpu"@ {
        assert(quantity.last().0 != field);
        assert(key_pos(quantity, field) == key_pos(quantity.drop_last(), field));
        assert(quantity.drop_last().last().0 == field);
        assert(key_pos(quantity, field) == 0);
    } else {
        assert(key_pos(quantity, field) == 1);
    }
}

/// In every values schema, each resource quantity — `cpu` and `memory`,
/// under both `requests` and `limits` — is the plain string schema
/// `{"type": "string"}`, so quantities such as `128Mi` or `500m` validate.
pub proof fn resource_quantities_are_strings(r: IacResource)
    ensures
        quantity_schema_at(values_schema_spec(r), "requests"@, "cpu"@) == Some(
            Json::Object(seq![("type"@, Json::Str("string"@))]),
        ),
        quantity_schema_at(values_schema_spec(r), "requests"@, "memory"@) == Some(
            Json::Object(seq![("type"@, Json::Str("string"@))]),
        ),
        quantity_schema_at(values_schema_spec(r), "limits"@, "cpu"@) == Some(
            Json::Object(seq![("type"@, Json::Str("string"@))]),
        ),
        quantity_schema_at(values_schema_spec(r), "limits"@, "memory"@) == Some(
            Json::Object(seq![("type"@, Json::Str("string"@))]),
        ),
{
    lemma_resources_in_values(r);
    lemma_quantities("requests"@, "cpu"@);
    lemma_quantities("requests"@, "memory"@);
    lemma_quantities("limits"@, "cpu"@);
    lemma_quantities("limits"@, "memory"@);
}

} // verus!
