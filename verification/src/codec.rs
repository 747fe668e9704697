//! JSON values as `serde_json` holds, reads and writes them.

use serde_json::Value;
use vstd::prelude::*;

use crate::json::{copy_number, members_map, number_tree, tree, Json, JsonView, Member};

verus! {

/// A JSON value of `serde_json`.
#[verifier::external_type_specification]
#[verifier::external_body]
pub struct ExValue(serde_json::Value);

/// The members of a JSON object of `serde_json`.
#[verifier::external_type_specification]
#[verifier::external_body]
#[verifier::reject_recursive_types(K)]
#[verifier::reject_recursive_types(V)]
pub struct ExMap<K, V>(serde_json::Map<K, V>);

/// What `serde_json` reports of a text that it cannot read.
#[verifier::external_type_specification]
#[verifier::external_body]
pub struct ExError(serde_json::Error);

/// The tree that a value of `serde_json` holds.
pub uninterp spec fn value_tree(value: serde_json::Value) -> JsonView;

/// The trees of the members of an object of `serde_json`, by their keys.
pub uninterp spec fn map_trees(map: serde_json::Map<String, serde_json::Value>) -> Map<
    Seq<char>,
    JsonView,
>;

/// The tree that `serde_json` reads from a text; none where it rejects the text.
pub uninterp spec fn parsed_text(text: Seq<char>) -> Option<JsonView>;

/// The indented text that `serde_json` writes for a tree.
pub uninterp spec fn pretty_text(tree: JsonView) -> Seq<char>;

/// The outermost layer of a value of `serde_json`.
pub enum Layer {
    Null,
    Bool(bool),
    Number(serde_json::Number),
    Str(String),
    Array(Vec<Value>),
    Object(serde_json::Map<String, Value>),
}

/// The members of an object by their keys, a later one in place of an earlier one.
pub open spec fn pairs_map(pairs: Seq<(String, Value)>) -> Map<Seq<char>, JsonView>
    decreases pairs.len(),
{
    if pairs.len() == 0 {
        Map::empty()
    } else {
        pairs_map(pairs.drop_last()).insert(pairs.last().0@, value_tree(pairs.last().1))
    }
}

/// The tree that a value with this outermost layer holds.
pub open spec fn layer_tree(layer: Layer) -> JsonView {
    match layer {
        Layer::Null => JsonView::Null,
        Layer::Bool(b) => JsonView::Bool(b),
        Layer::Number(n) => number_tree(n),
        Layer::Str(s) => JsonView::Str(s@),
        Layer::Array(items) => JsonView::Array(items@.map_values(|v: Value| value_tree(v))),
        Layer::Object(map) => JsonView::Object(map_trees(map)),
    }
}

/// Whether no key occurs twice.
pub open spec fn distinct_keys(pairs: Seq<(String, Value)>) -> bool {
    forall|i: int, j: int| 0 <= i < j < pairs.len() ==> pairs[i].0@ != pairs[j].0@
}

/// Takes a `serde_json::Value` apart by its variants.
#[verifier::external_body]
fn open_value(value: Value) -> (r: Layer)
    ensures
        layer_tree(r) == value_tree(value),
{
    match value {
        Value::Null => Layer::Null,
        Value::Bool(b) => Layer::Bool(b),
        Value::Number(n) => Layer::Number(n),
        Value::String(s) => Layer::Str(s),
        Value::Array(items) => Layer::Array(items),
        Value::Object(map) => Layer::Object(map),
    }
}

/// Makes a `serde_json::Value` by its variants.
#[verifier::external_body]
fn close_layer(layer: Layer) -> (r: Value)
    ensures
        value_tree(r) == layer_tree(layer),
{
    match layer {
        Layer::Null => Value::Null,
        Layer::Bool(b) => Value::Bool(b),
        Layer::Number(n) => Value::Number(n),
        Layer::Str(s) => Value::String(s),
        Layer::Array(items) => Value::Array(items),
        Layer::Object(map) => Value::Object(map),
    }
}

/// Calls `serde_json::Map::into_iter`, which hands out every member, each key once.
#[verifier::external_body]
fn map_members(map: serde_json::Map<String, Value>) -> (r: Vec<(String, Value)>)
    ensures
        pairs_map(r@) == map_trees(map),
        distinct_keys(r@),
{
    map.into_iter().collect()
}

/// Calls `serde_json::Map::new`, which makes a map without members.
#[verifier::external_body]
fn new_map() -> (r: serde_json::Map<String, Value>)
    ensures
        JsonView::Object(map_trees(r)) == JsonView::empty(),
{
    serde_json::Map::new()
}

/// Calls `serde_json::Map::insert`, which puts the value in place of the one that
/// the key had, or adds the key.
#[verifier::external_body]
fn insert_member(map: &mut serde_json::Map<String, Value>, key: String, value: Value)
    ensures
        map_trees(*final(map)) == map_trees(*old(map)).insert(key@, value_tree(value)),
{
    map.insert(key, value);
}

/// Calls `serde_json::from_str` for a `Value`.
#[verifier::external_body]
fn value_from_text(text: &str) -> (r: Result<Value, serde_json::Error>)
    ensures
        match r {
            Ok(value) => parsed_text(text@) == Some(value_tree(value)),
            Err(_) => parsed_text(text@) is None,
        },
{
    serde_json::from_str::<Value>(text)
}

/// Calls `serde_json::to_string_pretty`, which succeeds on every `Value`. An
/// object of booleans without a key in `$` is read back from its own text. Of
/// other values nothing is said: one that is nested too deeply is not read back,
/// nor is an object with a key that `serde_json` keeps for itself, which starts
/// with `$`.
#[verifier::external_body]
fn value_to_text(value: &Value) -> (r: Result<String, serde_json::Error>)
    ensures
        r is Ok,
        r->Ok_0@ == pretty_text(value_tree(*value)),
        is_flags(value_tree(*value)) ==> parsed_text(r->Ok_0@) == Some(value_tree(*value)),
{
    serde_json::to_string_pretty(value)
}

/// Whether the tree is an object with none but booleans in it, and no key in it
/// starts with `$`.
pub open spec fn is_flags(tree: JsonView) -> bool {
    &&& tree is Object
    &&& tree->Object_0.dom().finite()
    &&& forall|key: Seq<char>|
        tree->Object_0.contains_key(key) ==> (#[trigger] tree->Object_0[key]) is Bool && !(
        key.len() > 0 && key[0] == '$')
}

proof fn lemma_pairs(pairs: Seq<(String, Value)>, i: int)
    requires
        0 <= i < pairs.len(),
        distinct_keys(pairs),
    ensures
        pairs_map(pairs).dom().finite(),
        pairs_map(pairs).contains_key(pairs[i].0@),
        pairs_map(pairs)[pairs[i].0@] == value_tree(pairs[i].1),
    decreases pairs.len(),
{
    let shorter = pairs.drop_last();
    assert(distinct_keys(shorter));
    if i < pairs.len() - 1 {
        lemma_pairs(shorter, i);
    } else if pairs.len() > 1 {
        lemma_pairs(shorter, 0);
    }
}

/// The JSON value that holds the tree of `value`.
pub fn json_of_value(value: Value) -> (r: Json)
    ensures
        r@ == value_tree(value),
    decreases value_tree(value),
{
    match open_value(value) {
        Layer::Null => Json::Null,
        Layer::Bool(b) => Json::Bool(b),
        Layer::Number(n) => Json::Number(n),
        Layer::Str(s) => Json::Str(s),
        Layer::Array(values) => {
            let ghost all = values@;
            let ghost view = |v: Value| value_tree(v);
            let mut items: Vec<Json> = Vec::new();
            for v in it: values
                invariant
                    it.seq() == all,
                    view == (|v: Value| value_tree(v)),
                    value_tree(value) == JsonView::Array(all.map_values(view)),
                    items.len() == it.index(),
                    forall|j: int| 0 <= j < items.len() ==> tree(#[trigger] items@[j]) == value_tree(all[j]),
            {
                proof {
                    let t = value_tree(value);
                    let k = it.index() as int;
                    assert(t->Array_0[k] == value_tree(v));
                    assert(decreases_to!(t => t->Array_0));
                    assert(decreases_to!(t->Array_0 => t->Array_0[k]));
                }
                items.push(json_of_value(v));
            }
            let r = Json::Array(items);
            assert(r@->Array_0 =~= all.map_values(view));
            r
        },
        Layer::Object(map) => {
            let pairs = map_members(map);
            let ghost all = pairs@;
            let mut members: Vec<Member> = Vec::new();
            for p in it: pairs
                invariant
                    it.seq() == all,
                    distinct_keys(all),
                    value_tree(value) == JsonView::Object(pairs_map(all)),
                    members.len() == it.index(),
                    members_map(members@) == pairs_map(all.take(it.index() as int)),
            {
                let ghost before = members@;
                let ghost k = it.index() as int;
                proof {
                    lemma_pairs(all, k);
                    let t = value_tree(value);
                    assert(t->Object_0[p.0@] == value_tree(p.1));
                    assert(decreases_to!(t => t->Object_0));
                    assert(decreases_to!(t->Object_0 => t->Object_0[p.0@]));
                }
                let (key, inner) = p;
                members.push(Member { key, value: json_of_value(inner) });
                assert(members@.drop_last() =~= before);
                assert(all.take(k + 1).drop_last() =~= all.take(k));
            }
            assert(all.take(all.len() as int) =~= all);
            Json::Object(members)
        },
    }
}

/// The value of `serde_json` that holds the tree of `json`.
pub fn value_of_json(json: &Json) -> (r: Value)
    ensures
        value_tree(r) == json@,
    decreases json,
{
    match json {
        Json::Null => close_layer(Layer::Null),
        Json::Bool(b) => close_layer(Layer::Bool(*b)),
        Json::Number(n) => close_layer(Layer::Number(copy_number(n))),
        Json::Str(s) => close_layer(Layer::Str(s.clone())),
        Json::Array(items) => {
            let mut values: Vec<Value> = Vec::new();
            let mut i: usize = 0;
            while i < items.len()
                invariant
                    i <= items.len(),
                    values.len() == i,
                    decreases_to!(json => items@),
                    forall|j: int| 0 <= j < i ==> value_tree(#[trigger] values@[j]) == tree(items@[j]),
                decreases items.len() - i,
            {
                values.push(value_of_json(&items[i]));
                i = i + 1;
            }
            assert(values@.map_values(|v: Value| value_tree(v)) =~= json@->Array_0);
            close_layer(Layer::Array(values))
        },
        Json::Object(members) => {
            let mut map = new_map();
            let mut i: usize = 0;
            assert(members@.take(0) =~= Seq::<Member>::empty());
            while i < members.len()
                invariant
                    i <= members.len(),
                    decreases_to!(json => members@),
                    map_trees(map) == members_map(members@.take(i as int)),
                decreases members.len() - i,
            {
                proof {
                    let m = members@[i as int];
                    assert(decreases_to!(members@ => m));
                    assert(decreases_to!(m => m.value));
                }
                let value = value_of_json(&members[i].value);
                insert_member(&mut map, members[i].key.clone(), value);
                assert(members@.take(i + 1).drop_last() =~= members@.take(i as int));
                i = i + 1;
            }
            assert(members@.take(i as int) =~= members@);
            close_layer(Layer::Object(map))
        },
    }
}

/// Reads a JSON value from its text; `None` where the text is no JSON.
pub fn parse_json(text: &str) -> (r: Option<Json>)
    ensures
        match r {
            Some(json) => parsed_text(text@) == Some(json@),
            None => parsed_text(text@) is None,
        },
{
    match value_from_text(text) {
        Ok(value) => Some(json_of_value(value)),
        Err(_) => None,
    }
}

/// The indented text of a JSON value.
pub fn pretty_json(json: &Json) -> (r: String)
    ensures
        r@ == pretty_text(json@),
        is_flags(json@) ==> parsed_text(r@) == Some(json@),
{
    value_to_text(&value_of_json(json)).unwrap()
}

} // verus!
