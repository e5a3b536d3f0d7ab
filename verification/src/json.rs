//! JSON values as built by the schema generators.
//!
//! Objects keep their entries in insertion order and hold each key at most
//! once: inserting an existing key replaces its value in place.

use vstd::prelude::*;

verus! {

/// A JSON value. Numbers are held as their decimal text.
#[derive(Debug, PartialEq, Eq)]
pub enum JsonValue {
    Null,
    Bool(bool),
    Number(String),
    Str(String),
    Array(Vec<JsonValue>),
    Object(Vec<(String, JsonValue)>),
}

/// The mathematical content of a JSON value.
pub enum Json {
    Null,
    Bool(bool),
    Number(Seq<char>),
    Str(Seq<char>),
    Array(Seq<Json>),
    Object(Seq<(Seq<char>, Json)>),
}

/// The content of a JSON value.
pub open spec fn model(v: JsonValue) -> Json
    decreases v,
{
    match v {
        JsonValue::Null => Json::Null,
        JsonValue::Bool(b) => Json::Bool(b),
        JsonValue::Number(n) => Json::Number(n@),
        JsonValue::Str(s) => Json::Str(s@),
        JsonValue::Array(items) => Json::Array(models(items@)),
        JsonValue::Object(entries) => Json::Object(entry_models(entries@)),
    }
}

/// The contents of a sequence of JSON values.
pub open spec fn models(s: Seq<JsonValue>) -> Seq<Json>
    decreases s,
{
    if s.len() == 0 {
        Seq::empty()
    } else {
        models(s.drop_last()).push(model(s.last()))
    }
}

/// The contents of a sequence of object entries.
pub open spec fn entry_models(s: Seq<(String, JsonValue)>) -> Seq<(Seq<char>, Json)>
    decreases s,
{
    if s.len() == 0 {
        Seq::empty()
    } else {
        entry_models(s.drop_last()).push((s.last().0@, model(s.last().1)))
    }
}

impl View for JsonValue {
    type V = Json;

    open spec fn view(&self) -> Json {
        model(*self)
    }
}

/// The position of the last entry with key `k`, or -1 when there is none.
pub open spec fn key_pos(m: Seq<(Seq<char>, Json)>, k: Seq<char>) -> int
    decreases m.len(),
{
    if m.len() == 0 {
        -1
    } else if m.last().0 == k {
        m.len() - 1
    } else {
        key_pos(m.drop_last(), k)
    }
}

/// No key occurs twice among the entries.
pub open spec fn keys_distinct(m: Seq<(Seq<char>, Json)>) -> bool {
    forall|i: int, j: int| 0 <= i < j < m.len() ==> m[i].0 != m[j].0
}

/// The entries after setting key `k` to `v`: the existing entry is replaced in
/// place, or a new entry is appended.
pub open spec fn obj_set(m: Seq<(Seq<char>, Json)>, k: Seq<char>, v: Json) -> Seq<(Seq<char>, Json)> {
    let p = key_pos(m, k);
    if p >= 0 {
        m.update(p, (k, v))
    } else {
        m.push((k, v))
    }
}

/// The value held under key `k`, if any.
pub open spec fn obj_get(m: Seq<(Seq<char>, Json)>, k: Seq<char>) -> Option<Json> {
    let p = key_pos(m, k);
    if p >= 0 {
        Some(m[p].1)
    } else {
        None
    }
}

/// Sets entries one after another, starting from `m`.
pub open spec fn obj_set_all(m: Seq<(Seq<char>, Json)>, kvs: Seq<(Seq<char>, Json)>) -> Seq<(Seq<char>, Json)>
    decreases kvs.len(),
{
    if kvs.len() == 0 {
        m
    } else {
        obj_set(obj_set_all(m, kvs.drop_last()), kvs.last().0, kvs.last().1)
    }
}

/// An object built by setting the given entries in order, starting empty.
pub open spec fn obj(kvs: Seq<(Seq<char>, Json)>) -> Json {
    Json::Object(obj_set_all(Seq::empty(), kvs))
}

/// `key_pos` finds a position holding the key, or finds none when no entry
/// holds it.
pub proof fn lemma_key_pos(m: Seq<(Seq<char>, Json)>, k: Seq<char>)
    ensures
        -1 <= key_pos(m, k) < m.len(),
        key_pos(m, k) >= 0 ==> m[key_pos(m, k)].0 == k,
        key_pos(m, k) == -1 ==> forall|i: int| 0 <= i < m.len() ==> m[i].0 != k,
    decreases m.len(),
{
    if m.len() > 0 {
        lemma_key_pos(m.drop_last(), k);
        if m.last().0 != k {
            assert forall|i: int| 0 <= i < m.len() && key_pos(m, k) == -1 implies m[i].0 != k by {
                if i < m.len() - 1 {
                    assert(m.drop_last()[i] == m[i]);
                }
            }
        }
    }
}

/// In an object whose keys are distinct, the position of a key is the
/// position of any entry holding it.
pub proof fn lemma_key_pos_unique(m: Seq<(Seq<char>, Json)>, k: Seq<char>, i: int)
    requires
        keys_distinct(m),
        0 <= i < m.len(),
        m[i].0 == k,
    ensures
        key_pos(m, k) == i,
{
    lemma_key_pos(m, k);
}

/// Searching a prefix that is one entry longer: the new last entry is found
/// first when it holds the key.
pub proof fn lemma_key_pos_take(m: Seq<(Seq<char>, Json)>, k: Seq<char>, i: int)
    requires
        0 < i <= m.len(),
    ensures
        key_pos(m.take(i), k) == (if m[i - 1].0 == k {
            i - 1
        } else {
            key_pos(m.take(i - 1), k)
        }),
{
    assert(m.take(i).drop_last() =~= m.take(i - 1));
    assert(m.take(i).last() == m[i - 1]);
}

/// Setting a key keeps the keys distinct.
pub proof fn lemma_obj_set_distinct(m: Seq<(Seq<char>, Json)>, k: Seq<char>, v: Json)
    requires
        keys_distinct(m),
    ensures
        keys_distinct(obj_set(m, k, v)),
{
    lemma_key_pos(m, k);
}

/// What a read gives back of a write: after setting `k` to `v`, reading `k`
/// gives `v`, and reading any other key gives what it gave before.
pub proof fn obj_get_after_set(m: Seq<(Seq<char>, Json)>, k: Seq<char>, v: Json, k2: Seq<char>)
    requires
        keys_distinct(m),
    ensures
        obj_get(obj_set(m, k, v), k) == Some(v),
        k2 != k ==> obj_get(obj_set(m, k, v), k2) == obj_get(m, k2),
{
    lemma_key_pos(m, k);
    lemma_key_pos(m, k2);
    lemma_obj_set_distinct(m, k, v);
    let m2 = obj_set(m, k, v);
    lemma_key_pos(m2, k);
    lemma_key_pos(m2, k2);
    let p = key_pos(m, k);
    if p >= 0 {
        lemma_key_pos_unique(m2, k, p);
        if k2 != k {
            let q = key_pos(m, k2);
            if q >= 0 {
                lemma_key_pos_unique(m2, k2, q);
            } else {
                assert forall|i: int| 0 <= i < m2.len() implies m2[i].0 != k2 by {
                    if i != p {
                        assert(m2[i] == m[i]);
                    }
                }
            }
        }
    } else {
        lemma_key_pos_unique(m2, k, m.len() as int);
        if k2 != k {
            let q = key_pos(m, k2);
            if q >= 0 {
                lemma_key_pos_unique(m2, k2, q);
            } else {
                assert forall|i: int| 0 <= i < m2.len() implies m2[i].0 != k2 by {
                    if i < m.len() {
                        assert(m2[i] == m[i]);
                    }
                }
            }
        }
    }
}

/// Setting every entry of a list into an empty object yields distinct keys.
pub proof fn lemma_obj_set_all_distinct(m: Seq<(Seq<char>, Json)>, kvs: Seq<(Seq<char>, Json)>)
    requires
        keys_distinct(m),
    ensures
        keys_distinct(obj_set_all(m, kvs)),
    decreases kvs.len(),
{
    if kvs.len() > 0 {
        lemma_obj_set_all_distinct(m, kvs.drop_last());
        lemma_obj_set_distinct(obj_set_all(m, kvs.drop_last()), kvs.last().0, kvs.last().1);
    }
}

/// One more entry on the list of an object being built is one more `obj_set`.
pub proof fn lemma_obj_set_all_push(m: Seq<(Seq<char>, Json)>, kvs: Seq<(Seq<char>, Json)>, k: Seq<char>, v: Json)
    ensures
        obj_set_all(m, kvs.push((k, v))) == obj_set(obj_set_all(m, kvs), k, v),
{
    assert(kvs.push((k, v)).drop_last() =~= kvs);
}

/// Extending a prefix of values by one adds that value's content.
pub proof fn lemma_models_step(s: Seq<JsonValue>, i: int)
    requires
        0 <= i < s.len(),
    ensures
        models(s.take(i + 1)) == models(s.take(i)).push(model(s[i])),
{
    assert(s.take(i + 1).drop_last() =~= s.take(i));
}

/// The contents of a sequence of values have the same length, and each is
/// the content of the value at that position.
pub proof fn lemma_models_index(s: Seq<JsonValue>)
    ensures
        models(s).len() == s.len(),
        forall|i: int| 0 <= i < s.len() ==> #[trigger] models(s)[i] == model(s[i]),
    decreases s.len(),
{
    if s.len() > 0 {
        lemma_models_index(s.drop_last());
        assert forall|i: int| 0 <= i < s.len() implies #[trigger] models(s)[i] == model(s[i]) by {
            if i < s.len() - 1 {
                assert(s.drop_last()[i] == s[i]);
            }
        }
    }
}

/// The entry contents have the same length and keys, each value modelled.
pub proof fn lemma_entry_models_index(s: Seq<(String, JsonValue)>)
    ensures
        entry_models(s).len() == s.len(),
        forall|i: int| 0 <= i < s.len() ==> #[trigger] entry_models(s)[i] == (s[i].0@, model(s[i].1)),
    decreases s.len(),
{
    if s.len() > 0 {
        lemma_entry_models_index(s.drop_last());
        assert forall|i: int| 0 <= i < s.len() implies #[trigger] entry_models(s)[i] == (s[i].0@, model(s[i].1)) by {
            if i < s.len() - 1 {
                assert(s.drop_last()[i] == s[i]);
            }
        }
    }
}

impl JsonValue {
    /// A string value.
    pub fn string(s: &str) -> (res: JsonValue)
        ensures
            res@ == Json::Str(s@),
    {
        JsonValue::Str(String::from_str(s))
    }

    /// An empty object.
    pub fn empty_object() -> (res: JsonValue)
        ensures
            res@ == Json::Object(Seq::empty()),
    {
        let v: Vec<(String, JsonValue)> = Vec::new();
        assert(entry_models(v@) =~= Seq::empty());
        JsonValue::Object(v)
    }

    /// A deep copy of the value.
    pub fn copy(&self) -> (res: JsonValue)
        ensures
            res@ == self@,
        decreases *self,
    {
        match self {
            JsonValue::Null => JsonValue::Null,
            JsonValue::Bool(b) => JsonValue::Bool(*b),
            JsonValue::Number(n) => JsonValue::Number(n.clone()),
            JsonValue::Str(s) => JsonValue::Str(s.clone()),
            JsonValue::Array(items) => JsonValue::Array(copy_items(items)),
            JsonValue::Object(entries) => JsonValue::Object(copy_entries(entries)),
        }
    }

    /// The value held under `key` in an object; `None` for a missing key or a
    /// value that is not an object.
    pub fn get(&self, key: &str) -> (res: Option<&JsonValue>)
        ensures
            match self@ {
                Json::Object(m) => match obj_get(m, key@) {
                    Some(v) => res is Some && res.unwrap()@ == v,
                    None => res is None,
                },
                _ => res is None,
            },
    {
        match self {
            JsonValue::Object(entries) => {
                let ghost m = entry_models(entries@);
                proof {
                    lemma_entry_models_index(entries@);
                }
                let k = String::from_str(key);
                let mut i: usize = entries.len();
                assert(m.take(entries.len() as int) =~= m);
                while i > 0
                    invariant
                        0 <= i <= entries.len(),
                        m == entry_models(entries@),
                        self@ == Json::Object(m),
                        k@ == key@,
                        m.len() == entries@.len(),
                        forall|j: int| 0 <= j < entries@.len() ==> #[trigger] m[j] == (entries@[j].0@, model(entries@[j].1)),
                        key_pos(m, k@) == key_pos(m.take(i as int), k@),
                    decreases i,
                {
                    proof {
                        lemma_key_pos_take(m, k@, i as int);
                        lemma_key_pos(m, k@);
                    }
                    if entries[i - 1].0 == k {
                        assert(key_pos(m, key@) == i - 1);
                        assert(obj_get(m, key@) == Some(model(entries@[i - 1].1)));
                        assert(self@ == Json::Object(m));
                        return Some(&entries[i - 1].1);
                    }
                    i = i - 1;
                }
                assert(m.take(0) =~= Seq::<(Seq<char>, Json)>::empty());
                None
            },
            _ => None,
        }
    }

    /// The string held by a string value.
    pub fn as_str(&self) -> (res: Option<&str>)
        ensures
            match self@ {
                Json::Str(s) => res is Some && res.unwrap()@ == s,
                _ => res is None,
            },
    {
        match self {
            JsonValue::Str(s) => Some(s.as_str()),
            _ => None,
        }
    }
}

/// Deep copies of a sequence of values.
fn copy_items(items: &Vec<JsonValue>) -> (out: Vec<JsonValue>)
    ensures
        models(out@) == models(items@),
    decreases items@,
{
    let mut out: Vec<JsonValue> = Vec::new();
    let mut i: usize = 0;
    while i < items.len()
        invariant
            0 <= i <= items.len(),
            models(out@) == models(items@.take(i as int)),
        decreases items.len() - i,
    {
        proof {
            lemma_models_step(items@, i as int);
        }
        assert(decreases_to!(items@ => items@[i as int]));
        let c = items[i].copy();
        proof {
            assert(out@.push(c).drop_last() =~= out@);
        }
        out.push(c);
        i = i + 1;
    }
    assert(items@.take(items.len() as int) =~= items@);
    out
}

/// Deep copies of a sequence of object entries.
fn copy_entries(entries: &Vec<(String, JsonValue)>) -> (out: Vec<(String, JsonValue)>)
    ensures
        entry_models(out@) == entry_models(entries@),
    decreases entries@,
{
    let mut out: Vec<(String, JsonValue)> = Vec::new();
    let mut i: usize = 0;
    while i < entries.len()
        invariant
            0 <= i <= entries.len(),
            entry_models(out@) == entry_models(entries@.take(i as int)),
        decreases entries.len() - i,
    {
        assert(entries@.take(i + 1).drop_last() =~= entries@.take(i as int));
        assert(decreases_to!(entries@ => entries@[i as int]));
        assert(decreases_to!(entries@[i as int] => entries@[i as int].1));
        let k = entries[i].0.clone();
        let c = entries[i].1.copy();
        proof {
            assert(out@.push((k, c)).drop_last() =~= out@);
        }
        out.push((k, c));
        i = i + 1;
    }
    assert(entries@.take(entries.len() as int) =~= entries@);
    out
}

/// Appends an entry to the entries of an object (the caller knows the key is
/// new).
pub fn push_entry(entries: &mut Vec<(String, JsonValue)>, key: &str, value: JsonValue)
    ensures
        entry_models(final(entries)@) == entry_models(old(entries)@).push((key@, value@)),
{
    let ghost before = entries@;
    entries.push((String::from_str(key), value));
    assert(entries@.drop_last() =~= before);
}

/// Appends an item to the items of an array.
pub fn push_item(items: &mut Vec<JsonValue>, value: JsonValue)
    ensures
        models(final(items)@) == models(old(items)@).push(value@),
{
    let ghost before = items@;
    items.push(value);
    assert(items@.drop_last() =~= before);
}

/// Sets `key` to `value` in the entries of an object.
pub fn obj_insert(entries: &mut Vec<(String, JsonValue)>, key: String, value: JsonValue)
    ensures
        entry_models(final(entries)@) == obj_set(entry_models(old(entries)@), key@, value@),
{
    let ghost m = entry_models(entries@);
    proof {
        lemma_entry_models_index(entries@);
    }
    let mut i: usize = entries.len();
    assert(m.take(entries.len() as int) =~= m);
    while i > 0
        invariant
            0 <= i <= entries.len(),
            m == entry_models(entries@),
            m == entry_models(old(entries)@),
            m.len() == entries@.len(),
            forall|j: int| 0 <= j < entries@.len() ==> #[trigger] m[j] == (entries@[j].0@, model(entries@[j].1)),
            key_pos(m, key@) == key_pos(m.take(i as int), key@),
        decreases i,
    {
        proof {
            lemma_key_pos_take(m, key@, i as int);
        }
        if entries[i - 1].0 == key {
            let ghost vm = value@;
            let ghost km = key@;
            let ghost before = entries@;
            entries.set(i - 1, (key, value));
            proof {
                lemma_entry_models_index(entries@);
                assert forall|j: int| 0 <= j < m.len() implies #[trigger] entry_models(entries@)[j]
                    == m.update(i - 1, (km, vm))[j] by {
                    if j != i - 1 {
                        assert(entries@[j] == before[j]);
                    }
                }
                assert(entry_models(entries@) =~= m.update(i - 1, (km, vm)));
                assert(key_pos(m, km) == i - 1);
                assert(obj_set(m, km, vm) == m.update(i - 1, (km, vm)));
            }
            return;
        }
        i = i - 1;
    }
    assert(m.take(0) =~= Seq::<(Seq<char>, Json)>::empty());
    let ghost old_entries = entries@;
    entries.push((key, value));
    assert(entries@.drop_last() =~= old_entries);
}

/// The value under key `k` of a JSON object; nothing for other values.
pub open spec fn json_get(j: Json, k: Seq<char>) -> Option<Json> {
    match j {
        Json::Object(m) => obj_get(m, k),
        _ => None,
    }
}

/// The value under key `k` of the value found so far, if any.
pub open spec fn then_get(o: Option<Json>, k: Seq<char>) -> Option<Json> {
    match o {
        Some(j) => json_get(j, k),
        None => None,
    }
}

/// Entries put in front of an object shift where a key is found, when the
/// key occurs among the later entries.
pub proof fn lemma_key_pos_append(a: Seq<(Seq<char>, Json)>, b: Seq<(Seq<char>, Json)>, k: Seq<char>)
    requires
        key_pos(b, k) >= 0,
    ensures
        key_pos(a + b, k) == a.len() + key_pos(b, k),
    decreases b.len(),
{
    if b.last().0 == k {
        assert((a + b).last() == b.last());
    } else {
        assert((a + b).drop_last() =~= a + b.drop_last());
        assert((a + b).last() == b.last());
        lemma_key_pos_append(a, b.drop_last(), k);
    }
}

} // verus!
