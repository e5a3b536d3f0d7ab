//! JSON Schema for attribute types.

use vstd::prelude::*;

use crate::ir::{IacAttribute, IacType};
use crate::json::{
    entry_models, model, models, obj_insert, obj_set, push_entry, push_item, Json, JsonValue,
};

verus! {

/// `{"type": t}`.
pub open spec fn type_only(t: Seq<char>) -> Json {
    Json::Object(seq![("type"@, Json::Str(t))])
}

/// The JSON Schema of a type.
pub open spec fn type_schema(t: IacType) -> Json
    decreases t,
{
    match t {
        IacType::String => type_only("string"@),
        IacType::Integer => type_only("integer"@),
        IacType::Float => type_only("number"@),
        IacType::Numeric => type_only("number"@),
        IacType::Boolean => type_only("boolean"@),
        IacType::List(inner) => Json::Object(
            seq![("type"@, Json::Str("array"@)), ("items"@, type_schema(*inner))],
        ),
        IacType::SetOf(inner) => Json::Object(
            seq![
                ("type"@, Json::Str("array"@)),
                ("items"@, type_schema(*inner)),
                ("uniqueItems"@, Json::Bool(true)),
            ],
        ),
        IacType::MapOf(inner) => Json::Object(
            seq![("type"@, Json::Str("object"@)), ("additionalProperties"@, type_schema(*inner))],
        ),
        IacType::Object { fields, .. } => Json::Object(
            seq![("type"@, Json::Str("object"@)), ("properties"@, Json::Object(field_props(fields@)))]
                + if required_names(fields@).len() > 0 {
                seq![("required"@, Json::Array(required_names(fields@)))]
            } else {
                Seq::empty()
            },
        ),
        IacType::Enum { values, .. } => Json::Object(
            seq![("type"@, Json::Str("string"@)), ("enum"@, Json::Array(string_items(values@)))],
        ),
        IacType::Any => Json::Object(Seq::empty()),
    }
}

/// The `properties` of an object type: each field's schema under its
/// canonical name, set in order.
pub open spec fn field_props(fields: Seq<IacAttribute>) -> Seq<(Seq<char>, Json)>
    decreases fields,
{
    if fields.len() == 0 {
        Seq::empty()
    } else {
        obj_set(
            field_props(fields.drop_last()),
            fields.last().canonical_name@,
            type_schema(fields.last().iac_type),
        )
    }
}

/// The canonical names of the required attributes, as JSON strings, in order.
pub open spec fn required_names(attrs: Seq<IacAttribute>) -> Seq<Json>
    decreases attrs.len(),
{
    if attrs.len() == 0 {
        Seq::empty()
    } else if attrs.last().required {
        required_names(attrs.drop_last()).push(Json::Str(attrs.last().canonical_name@))
    } else {
        required_names(attrs.drop_last())
    }
}

/// Strings as JSON strings.
pub open spec fn string_items(values: Seq<String>) -> Seq<Json>
    decreases values.len(),
{
    if values.len() == 0 {
        Seq::empty()
    } else {
        string_items(values.drop_last()).push(Json::Str(values.last()@))
    }
}

/// `{"type": t}` as a value.
pub fn json_schema_type(t: &str) -> (res: JsonValue)
    ensures
        res@ == type_only(t@),
{
    let mut e: Vec<(String, JsonValue)> = Vec::new();
    assert(entry_models(e@) =~= Seq::empty());
    push_entry(&mut e, "type", JsonValue::string(t));
    assert(entry_models(e@) =~= seq![("type"@, Json::Str(t@))]);
    JsonValue::Object(e)
}

/// `{"type": "string"}`.
pub fn json_schema_string() -> (res: JsonValue)
    ensures
        res@ == type_only("string"@),
{
    json_schema_type("string")
}

/// The names of the required attributes among `attrs`, as JSON strings.
pub fn required_list(attrs: &Vec<IacAttribute>) -> (res: Vec<JsonValue>)
    ensures
        models(res@) == required_names(attrs@),
{
    let mut out: Vec<JsonValue> = Vec::new();
    let mut i: usize = 0;
    assert(models(out@) =~= Seq::empty());
    while i < attrs.len()
        invariant
            0 <= i <= attrs.len(),
            models(out@) == required_names(attrs@.take(i as int)),
        decreases attrs.len() - i,
    {
        assert(attrs@.take(i + 1).drop_last() =~= attrs@.take(i as int));
        if attrs[i].required {
            push_item(&mut out, JsonValue::Str(attrs[i].canonical_name.clone()));
        }
        i = i + 1;
    }
    assert(attrs@.take(attrs.len() as int) =~= attrs@);
    out
}

/// The `properties` of an object type.
fn object_properties(fields: &Vec<IacAttribute>) -> (res: Vec<(String, JsonValue)>)
    ensures
        entry_models(res@) == field_props(fields@),
    decreases fields@,
{
    let mut out: Vec<(String, JsonValue)> = Vec::new();
    assert(entry_models(out@) =~= Seq::empty());
    let mut i: usize = 0;
    while i < fields.len()
        invariant
            0 <= i <= fields.len(),
            entry_models(out@) == field_props(fields@.take(i as int)),
        decreases fields.len() - i,
    {
        assert(fields@.take(i + 1).drop_last() =~= fields@.take(i as int));
        assert(decreases_to!(fields@ => fields@[i as int]));
        assert(decreases_to!(fields@[i as int] => fields@[i as int].iac_type));
        let schema = iac_type_to_json_schema(&fields[i].iac_type);
        obj_insert(&mut out, fields[i].canonical_name.clone(), schema);
        i = i + 1;
    }
    assert(fields@.take(fields.len() as int) =~= fields@);
    out
}

/// Strings as JSON string values.
fn string_values(values: &Vec<String>) -> (res: Vec<JsonValue>)
    ensures
        models(res@) == string_items(values@),
{
    let mut out: Vec<JsonValue> = Vec::new();
    assert(models(out@) =~= Seq::empty());
    let mut i: usize = 0;
    while i < values.len()
        invariant
            0 <= i <= values.len(),
            models(out@) == string_items(values@.take(i as int)),
        decreases values.len() - i,
    {
        assert(values@.take(i + 1).drop_last() =~= values@.take(i as int));
        push_item(&mut out, JsonValue::Str(values[i].clone()));
        i = i + 1;
    }
    assert(values@.take(values.len() as int) =~= values@);
    out
}

/// The JSON Schema of a type: `string`, `integer`, `number` (floats and
/// numerics), `boolean`; arrays of the item schema (sets with
/// `uniqueItems`); objects with `additionalProperties` (maps) or with
/// `properties` and `required` (object types); string enumerations; and the
/// empty schema for any value.
pub fn iac_type_to_json_schema(iac_type: &IacType) -> (res: JsonValue)
    ensures
        res@ == type_schema(*iac_type),
    decreases *iac_type,
{
    match iac_type {
        IacType::String => json_schema_string(),
        IacType::Integer => json_schema_type("integer"),
        IacType::Float => json_schema_type("number"),
        IacType::Numeric => json_schema_type("number"),
        IacType::Boolean => json_schema_type("boolean"),
        IacType::List(inner) => {
            let mut e: Vec<(String, JsonValue)> = Vec::new();
            assert(entry_models(e@) =~= Seq::empty());
            push_entry(&mut e, "type", JsonValue::string("array"));
            let items = iac_type_to_json_schema(inner);
            push_entry(&mut e, "items", items);
            assert(entry_models(e@) =~= seq![("type"@, Json::Str("array"@)), ("items"@, type_schema(**inner))]);
            JsonValue::Object(e)
        },
        IacType::SetOf(inner) => {
            let mut e: Vec<(String, JsonValue)> = Vec::new();
            assert(entry_models(e@) =~= Seq::empty());
            push_entry(&mut e, "type", JsonValue::string("array"));
            let items = iac_type_to_json_schema(inner);
            push_entry(&mut e, "items", items);
            push_entry(&mut e, "uniqueItems", JsonValue::Bool(true));
            assert(entry_models(e@) =~= seq![
                ("type"@, Json::Str("array"@)),
                ("items"@, type_schema(**inner)),
                ("uniqueItems"@, Json::Bool(true)),
            ]);
            JsonValue::Object(e)
        },
        IacType::MapOf(inner) => {
            let mut e: Vec<(String, JsonValue)> = Vec::new();
            assert(entry_models(e@) =~= Seq::empty());
            push_entry(&mut e, "type", JsonValue::string("object"));
            let items = iac_type_to_json_schema(inner);
            push_entry(&mut e, "additionalProperties", items);
            assert(entry_models(e@) =~= seq![("type"@, Json::Str("object"@)), ("additionalProperties"@, type_schema(**inner))]);
            JsonValue::Object(e)
        },
        IacType::Object { fields, .. } => {
            let props = object_properties(fields);
            let required = required_list(fields);
            let mut e: Vec<(String, JsonValue)> = Vec::new();
            assert(entry_models(e@) =~= Seq::empty());
            push_entry(&mut e, "type", JsonValue::string("object"));
            push_entry(&mut e, "properties", JsonValue::Object(props));
            let ghost r = models(required@);
            proof {
                crate::json::lemma_models_index(required@);
            }
            let ghost head = seq![("type"@, Json::Str("object"@)), ("properties"@, Json::Object(field_props(fields@)))];
            assert(entry_models(e@) =~= head);
            if required.len() > 0 {
                push_entry(&mut e, "required", JsonValue::Array(required));
                assert(entry_models(e@) =~= head + seq![("required"@, Json::Array(r))]);
            } else {
                assert(entry_models(e@) =~= head + Seq::<(Seq<char>, Json)>::empty());
            }
            JsonValue::Object(e)
        },
        IacType::Enum { values, .. } => {
            let mut e: Vec<(String, JsonValue)> = Vec::new();
            assert(entry_models(e@) =~= Seq::empty());
            push_entry(&mut e, "type", JsonValue::string("string"));
            let vals = string_values(values);
            let ghost vm = models(vals@);
            push_entry(&mut e, "enum", JsonValue::Array(vals));
            assert(entry_models(e@) =~= seq![("type"@, Json::Str("string"@)), ("enum"@, Json::Array(vm))]);
            JsonValue::Object(e)
        },
        IacType::Any => JsonValue::empty_object(),
    }
}

/// The `required` list of an object schema names exactly the required
/// attributes: each entry is the canonical name of a required attribute,
/// and each required attribute's canonical name is an entry.
pub proof fn required_lists_exactly_the_required(attrs: Seq<IacAttribute>)
    ensures
        forall|i: int|
            0 <= i < required_names(attrs).len() ==> exists|j: int|
                0 <= j < attrs.len() && (#[trigger] attrs[j]).required && #[trigger] required_names(attrs)[i] == Json::Str(
                    attrs[j].canonical_name@,
                ),
        forall|j: int|
            0 <= j < attrs.len() && (#[trigger] attrs[j]).required ==> exists|i: int|
                0 <= i < required_names(attrs).len() && #[trigger] required_names(attrs)[i] == Json::Str(
                    attrs[j].canonical_name@,
                ),
    decreases attrs.len(),
{
    if attrs.len() > 0 {
        let d = attrs.drop_last();
        let a = attrs.last();
        required_lists_exactly_the_required(d);
        let rd = required_names(d);
        let ra = required_names(attrs);
        assert forall|i: int| 0 <= i < ra.len() implies exists|j: int|
            0 <= j < attrs.len() && (#[trigger] attrs[j]).required && #[trigger] ra[i] == Json::Str(attrs[j].canonical_name@) by {
            if i < rd.len() {
                assert(ra[i] == rd[i]);
                let j = choose|j: int| 0 <= j < d.len() && (#[trigger] d[j]).required && rd[i] == Json::Str(d[j].canonical_name@);
                assert(attrs[j] == d[j]);
            } else {
                assert(attrs[attrs.len() - 1] == a);
            }
        }
        assert forall|j: int| 0 <= j < attrs.len() && (#[trigger] attrs[j]).required implies exists|i: int|
            0 <= i < ra.len() && #[trigger] ra[i] == Json::Str(attrs[j].canonical_name@) by {
            if j < d.len() {
                assert(attrs[j] == d[j]);
                assert(d[j].required);
                let i = choose|i: int| 0 <= i < rd.len() && #[trigger] rd[i] == Json::Str(d[j].canonical_name@);
                assert(ra[i] == rd[i]);
            } else {
                assert(ra[rd.len() as int] == Json::Str(a.canonical_name@));
            }
        }
    }
}

} // verus!
