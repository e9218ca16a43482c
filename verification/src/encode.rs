//! Building blocks for turning a record into a JSON object: one entry per
//! field that is not left out, in the order of the schema.

use crate::json::{
    array_value, entries_of, has_key, integer_value, json_of, map_insert, models, text_value, Entry,
    Json,
};
use vstd::prelude::*;

verus! {

/// The entries of an object after one more field of the schema: the field is
/// written behind the others, unless it is left out.
pub open spec fn with_field(entries: Seq<Entry>, present: bool, key: Seq<char>, value: Json) -> Seq<
    Entry,
> {
    if present {
        entries.push((key, value))
    } else {
        entries
    }
}

/// Length, first and last character of a key. No two keys of one object of
/// the schema agree in all three.
pub open spec fn mark(key: Seq<char>) -> (nat, char, char) {
    (key.len(), key[0], key[key.len() - 1])
}

/// A key is among the entries after a field was added if it was there before
/// or is the key of that field.
pub proof fn lemma_with_field_key(
    entries: Seq<Entry>,
    present: bool,
    key: Seq<char>,
    value: Json,
    k: Seq<char>,
)
    ensures
        has_key(with_field(entries, present, key, value), k) <==> has_key(entries, k) || (present
            && k == key),
{
    let after = with_field(entries, present, key, value);
    if present {
        if has_key(entries, k) {
            let i = choose|i: int| 0 <= i < entries.len() && (#[trigger] entries[i]).0 == k;
            assert(after[i].0 == k);
        }
        if k == key {
            assert(after[entries.len() as int].0 == k);
        }
        if has_key(after, k) {
            let i = choose|i: int| 0 <= i < after.len() && (#[trigger] after[i]).0 == k;
            if i < entries.len() {
                assert(entries[i].0 == k);
            }
        }
    }
}

/// Whether the entries hold the key `key` with the value `value`.
pub open spec fn has_entry(entries: Seq<Entry>, key: Seq<char>, value: Json) -> bool {
    exists|i: int| 0 <= i < entries.len() && #[trigger] entries[i] == (key, value)
}

/// An entry stays when a field is added, and a field that is not left out
/// is an entry.
pub proof fn lemma_with_field_entry(
    entries: Seq<Entry>,
    present: bool,
    key: Seq<char>,
    value: Json,
    k: Seq<char>,
    v: Json,
)
    ensures
        has_entry(entries, k, v) ==> has_entry(with_field(entries, present, key, value), k, v),
        present ==> has_entry(with_field(entries, present, key, value), key, value),
{
    let after = with_field(entries, present, key, value);
    if present {
        assert(after[entries.len() as int] == (key, value));
        if has_entry(entries, k, v) {
            let i = choose|i: int| 0 <= i < entries.len() && #[trigger] entries[i] == (k, v);
            assert(after[i] == (k, v));
        }
    }
}

/// Whether no key stands twice among the entries.
pub open spec fn distinct_keys(entries: Seq<Entry>) -> bool {
    forall|i: int, j: int|
        0 <= i < j < entries.len() ==> (#[trigger] entries[i]).0 != (#[trigger] entries[j]).0
}

/// Entries without a repeated key stay so when a field with a new key is added.
pub proof fn lemma_with_field_distinct(
    entries: Seq<Entry>,
    present: bool,
    key: Seq<char>,
    value: Json,
)
    requires
        distinct_keys(entries),
        !has_key(entries, key),
    ensures
        distinct_keys(with_field(entries, present, key, value)),
{
    let after = with_field(entries, present, key, value);
    if present {
        assert forall|i: int, j: int| 0 <= i < j < after.len() implies (#[trigger] after[i]).0 != (
        #[trigger] after[j]).0 by {
            if j < entries.len() {
                assert(after[i] == entries[i] && after[j] == entries[j]);
            } else {
                assert(after[i] == entries[i]);
            }
        }
    }
}

/// What holds of the keys of an object that is built field by field: the
/// two lemmas above for every field, and that there is no key before the
/// first.
pub proof fn lemma_fields()
    ensures
        forall|k: Seq<char>| !(#[trigger] has_key(Seq::<Entry>::empty(), k)),
        distinct_keys(Seq::<Entry>::empty()),
        forall|e: Seq<Entry>, p: bool, key: Seq<char>, v: Json, k: Seq<char>| #[trigger]
            has_key(with_field(e, p, key, v), k) <==> has_key(e, k) || (p && k == key),
        forall|e: Seq<Entry>, p: bool, key: Seq<char>, v: Json|
            distinct_keys(e) && !has_key(e, key) ==> #[trigger] distinct_keys(
                with_field(e, p, key, v),
            ),
{
    assert forall|e: Seq<Entry>, p: bool, key: Seq<char>, v: Json, k: Seq<char>| #[trigger]
        has_key(with_field(e, p, key, v), k) <==> has_key(e, k) || (p && k == key) by {
        lemma_with_field_key(e, p, key, v, k);
    }
    assert forall|e: Seq<Entry>, p: bool, key: Seq<char>, v: Json|
        distinct_keys(e) && !has_key(e, key) implies #[trigger] distinct_keys(
        with_field(e, p, key, v),
    ) by {
        lemma_with_field_distinct(e, p, key, v);
    }
}

/// A value of the document that has a JSON form.
pub trait ToJson {
    /// The JSON form of the value.
    spec fn json(&self) -> Json;

    /// Builds the JSON form.
    fn to_value(&self) -> (v: serde_json::Value)
        ensures
            json_of(v) == self.json(),
    ;
}

/// The JSON array of the forms of the items, in their order.
pub open spec fn array_json<T: ToJson>(items: Seq<T>) -> Json {
    Json::Array(Seq::new(items.len(), |i: int| items[i].json()))
}

impl ToJson for u32 {
    open spec fn json(&self) -> Json {
        Json::Integer(*self as int)
    }

    fn to_value(&self) -> (v: serde_json::Value) {
        integer_value(*self)
    }
}

/// Writes the field `key` behind the entries of `m`.
pub(crate) fn put(
    m: &mut serde_json::Map<String, serde_json::Value>,
    key: &str,
    value: serde_json::Value,
)
    requires
        !has_key(entries_of(*old(m)), key@),
    ensures
        entries_of(*final(m)) == with_field(entries_of(*old(m)), true, key@, json_of(value)),
        forall|k: Seq<char>| #[trigger]
            has_key(entries_of(*final(m)), k) ==> has_key(entries_of(*old(m)), k) || k == key@,
{
    let ghost before = entries_of(*m);
    let ghost added = json_of(value);
    map_insert(m, key, value);
    proof {
        assert forall|k: Seq<char>| #[trigger]
            has_key(entries_of(*m), k) implies has_key(before, k) || k == key@ by {
            lemma_with_field_key(before, true, key@, added, k);
        }
    }
}

/// The entries after a text field, which is left out when the text is empty.
pub open spec fn with_text(entries: Seq<Entry>, key: Seq<char>, text: Seq<char>) -> Seq<Entry> {
    with_field(entries, text.len() > 0, key, Json::Text(text))
}

/// The entries after an index field, which is left out when there is no index.
pub open spec fn with_index(entries: Seq<Entry>, key: Seq<char>, index: Option<u32>) -> Seq<Entry> {
    with_field(entries, index is Some, key, Json::Integer(index.unwrap() as int))
}

/// The entries after a list field, which is left out when the list is empty.
pub open spec fn with_list<T: ToJson>(entries: Seq<Entry>, key: Seq<char>, items: Seq<T>) -> Seq<
    Entry,
> {
    with_field(entries, items.len() > 0, key, array_json(items))
}

/// Writes the text field `key`, unless the text is empty.
pub(crate) fn put_text(m: &mut serde_json::Map<String, serde_json::Value>, key: &str, text: &String)
    requires
        !has_key(entries_of(*old(m)), key@),
    ensures
        entries_of(*final(m)) == with_text(entries_of(*old(m)), key@, text@),
        forall|k: Seq<char>| #[trigger]
            has_key(entries_of(*final(m)), k) ==> has_key(entries_of(*old(m)), k) || k == key@,
{
    if !text.as_str().is_empty() {
        put(m, key, text_value(text.as_str()));
    }
}

/// Writes the index field `key`, unless there is no index.
pub(crate) fn put_index(
    m: &mut serde_json::Map<String, serde_json::Value>,
    key: &str,
    index: Option<u32>,
)
    requires
        !has_key(entries_of(*old(m)), key@),
    ensures
        entries_of(*final(m)) == with_index(entries_of(*old(m)), key@, index),
        forall|k: Seq<char>| #[trigger]
            has_key(entries_of(*final(m)), k) ==> has_key(entries_of(*old(m)), k) || k == key@,
{
    if let Some(i) = index {
        put(m, key, integer_value(i));
    }
}

/// Writes the list field `key`, unless the list is empty.
pub(crate) fn put_list<T: ToJson>(
    m: &mut serde_json::Map<String, serde_json::Value>,
    key: &str,
    items: &Vec<T>,
)
    requires
        !has_key(entries_of(*old(m)), key@),
    ensures
        entries_of(*final(m)) == with_list(entries_of(*old(m)), key@, items@),
        forall|k: Seq<char>| #[trigger]
            has_key(entries_of(*final(m)), k) ==> has_key(entries_of(*old(m)), k) || k == key@,
{
    if items.len() > 0 {
        put(m, key, array_of(items));
    }
}

/// Builds the JSON array of the items.
pub fn array_of<T: ToJson>(items: &Vec<T>) -> (v: serde_json::Value)
    ensures
        json_of(v) == array_json(items@),
{
    let mut values: Vec<serde_json::Value> = Vec::new();
    let mut i: usize = 0;
    while i < items.len()
        invariant
            i <= items.len(),
            values@.len() == i,
            forall|j: int| 0 <= j < i ==> json_of(#[trigger] values@[j]) == items@[j].json(),
        decreases items.len() - i,
    {
        let value = items[i].to_value();
        values.push(value);
        i += 1;
    }
    let v = array_value(values);
    proof {
        assert(models(values@) =~= Seq::new(items@.len(), |i: int| items@[i].json()));
    }
    v
}

} // verus!
