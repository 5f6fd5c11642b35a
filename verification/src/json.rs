//! JSON documents as the protocol engine sees them.
//!
//! Frames are parsed by `serde_json`. Its `Value` is opaque to the verifier, so
//! this module walks a parsed value once and rebuilds it as [`Json`], a tree of
//! plain values on which all protocol logic is verified. The contracts speak of
//! [`JsonTree`], the mathematical form of a document.

use vstd::prelude::*;

verus! {

/// `serde_json::Value`, carried through as an opaque value.
#[verifier::external_type_specification]
#[verifier::external_body]
pub struct ExValue(serde_json::Value);

/// `serde_json::Error`, carried through as an opaque value.
#[verifier::external_type_specification]
#[verifier::external_body]
pub struct ExError(serde_json::Error);

/// What the engine reads of a JSON number.
///
/// `unsigned` is the number itself where it was written as a non-negative
/// integer that fits in 64 bits. `bits` is the bit pattern of the nearest
/// double: scalars are stored and passed on in this form and never
/// interpreted here.
#[derive(Clone, Copy, Debug, PartialEq, Eq)]
pub struct Number {
    pub unsigned: Option<u64>,
    pub bits: u64,
}

/// A JSON document as a mathematical tree. An object is the sequence of its
/// members in the order in which the parser hands them out.
pub enum JsonTree {
    Null,
    Bool(bool),
    Number(Number),
    Text(Seq<char>),
    Array(Seq<JsonTree>),
    Object(Seq<(Seq<char>, JsonTree)>),
}

/// The member named `key` among `entries`: the first one, if there are several.
pub open spec fn member(entries: Seq<(Seq<char>, JsonTree)>, key: Seq<char>) -> Option<JsonTree>
    decreases entries.len(),
{
    if entries.len() == 0 {
        None
    } else if entries[0].0 == key {
        Some(entries[0].1)
    } else {
        member(entries.drop_first(), key)
    }
}

impl JsonTree {
    /// The member named `key`, where this is an object that has one.
    pub open spec fn get(self, key: Seq<char>) -> Option<JsonTree> {
        match self {
            JsonTree::Object(entries) => member(entries, key),
            _ => None,
        }
    }
}

/// The first `n` items of `items` are all numbers.
pub open spec fn leading_numbers(items: Seq<JsonTree>, n: int) -> bool {
    n <= items.len() && forall|i: int| 0 <= i < n ==> (#[trigger] items[i]) is Number
}

/// The bit patterns of the first `n` items of `items`.
pub open spec fn leading_scalars(items: Seq<JsonTree>, n: int) -> Seq<u64>
    recommends
        leading_numbers(items, n),
{
    Seq::new(n as nat, |i: int| items[i]->Number_0.bits)
}

/// A JSON document held as plain values.
#[derive(Debug, PartialEq, Eq)]
pub enum Json {
    Null,
    Bool(bool),
    Number(Number),
    Text(String),
    Array(Vec<Json>),
    Object(Vec<(String, Json)>),
}

impl Json {
    /// The tree that this document stands for.
    pub open spec fn tree(self) -> JsonTree
        decreases self,
    {
        match self {
            Json::Null => JsonTree::Null,
            Json::Bool(b) => JsonTree::Bool(b),
            Json::Number(n) => JsonTree::Number(n),
            Json::Text(s) => JsonTree::Text(s@),
            Json::Array(items) => JsonTree::Array(
                Seq::new(
                    items@.len(),
                    |i: int|
                        if 0 <= i < items@.len() {
                            items@[i].tree()
                        } else {
                            JsonTree::Null
                        },
                ),
            ),
            Json::Object(entries) => JsonTree::Object(
                Seq::new(
                    entries@.len(),
                    |i: int|
                        if 0 <= i < entries@.len() {
                            (entries@[i].0@, entries@[i].1.tree())
                        } else {
                            (Seq::empty(), JsonTree::Null)
                        },
                ),
            ),
        }
    }
}

impl View for Json {
    type V = JsonTree;

    open spec fn view(&self) -> JsonTree {
        self.tree()
    }
}

/// The trees of a sequence of documents.
pub open spec fn trees(items: Seq<Json>) -> Seq<JsonTree> {
    Seq::new(items.len(), |i: int| items[i]@)
}

/// The trees of a sequence of named documents.
pub open spec fn entry_trees(entries: Seq<(String, Json)>) -> Seq<(Seq<char>, JsonTree)> {
    Seq::new(entries.len(), |i: int| (entries[i].0@, entries[i].1@))
}

/// The tree of an array is the array of its items' trees.
pub proof fn lemma_array_view(items: Vec<Json>)
    ensures
        Json::Array(items)@ == JsonTree::Array(trees(items@)),
{
    assert(Json::Array(items)@->Array_0 =~= trees(items@));
}

/// The tree of an object is the sequence of its members' names and trees.
pub proof fn lemma_object_view(entries: Vec<(String, Json)>)
    ensures
        Json::Object(entries)@ == JsonTree::Object(entry_trees(entries@)),
{
    assert(Json::Object(entries)@->Object_0 =~= entry_trees(entries@));
}

/// The tree that a parsed `serde_json::Value` stands for.
pub uninterp spec fn tree_of(value: serde_json::Value) -> JsonTree;

/// What `serde_json` makes of `bytes`: the document's tree, or `None` where
/// the bytes are no JSON document.
pub uninterp spec fn parsed(bytes: Seq<u8>) -> Option<JsonTree>;

/// `serde_json::from_slice`, read as a `Value`. Trusted: the outcome is a
/// function of the bytes alone, named [`parsed`]; an error means that the
/// bytes are not one JSON document.
#[verifier::external_body]
fn value_from_slice(bytes: &[u8]) -> (r: Result<serde_json::Value, serde_json::Error>)
    ensures
        match r {
            Ok(value) => parsed(bytes@) == Some(tree_of(value)),
            Err(_) => parsed(bytes@) is None,
        },
{
    serde_json::from_slice(bytes)
}

/// `Value::as_bool`. Trusted: `Some` exactly for a boolean, with its value.
#[verifier::external_body]
fn value_as_bool(value: &serde_json::Value) -> (r: Option<bool>)
    ensures
        match r {
            Some(b) => tree_of(*value) == JsonTree::Bool(b),
            None => !(tree_of(*value) is Bool),
        },
{
    value.as_bool()
}

/// `Value::as_u64`. Trusted: `Some` exactly for a number written as a
/// non-negative integer that fits in 64 bits, with that integer.
#[verifier::external_body]
fn value_as_u64(value: &serde_json::Value) -> (r: Option<u64>)
    ensures
        r == match tree_of(*value) {
            JsonTree::Number(n) => n.unsigned,
            _ => None::<u64>,
        },
{
    value.as_u64()
}

/// `Value::as_f64`, handed out as the double's bit pattern. Trusted: `Some`
/// exactly for a number, with the bits of the double that stands for it.
#[verifier::external_body]
fn value_as_bits(value: &serde_json::Value) -> (r: Option<u64>)
    ensures
        match r {
            Some(bits) => tree_of(*value) is Number && tree_of(*value)->Number_0.bits == bits,
            None => !(tree_of(*value) is Number),
        },
{
    value.as_f64().map(|x| x.to_bits())
}

/// `Value::as_str`. Trusted: `Some` exactly for a string, with its text.
#[verifier::external_body]
fn value_as_str(value: &serde_json::Value) -> (r: Option<&str>)
    ensures
        match r {
            Some(s) => tree_of(*value) == JsonTree::Text(s@),
            None => !(tree_of(*value) is Text),
        },
{
    value.as_str()
}

/// `Value::as_array`. Trusted: `Some` exactly for an array, with its items in
/// order.
#[verifier::external_body]
fn value_as_array(value: &serde_json::Value) -> (r: Option<&Vec<serde_json::Value>>)
    ensures
        match r {
            Some(items) => tree_of(*value) == JsonTree::Array(
                Seq::new(items@.len(), |i: int| tree_of(items@[i])),
            ),
            None => !(tree_of(*value) is Array),
        },
{
    value.as_array()
}

/// `Value::as_object` and the walk over its `Map`. Trusted: `Some` exactly for
/// an object, with its members in the map's order.
#[verifier::external_body]
fn value_as_entries(value: &serde_json::Value) -> (r: Option<Vec<(&String, &serde_json::Value)>>)
    ensures
        match r {
            Some(entries) => tree_of(*value) == JsonTree::Object(
                Seq::new(entries@.len(), |i: int| (entries@[i].0@, tree_of(*entries@[i].1))),
            ),
            None => !(tree_of(*value) is Object),
        },
{
    value.as_object().map(|members| members.iter().collect())
}

/// Rebuilds a parsed value as a tree of plain values.
fn from_value(value: &serde_json::Value) -> (json: Json)
    ensures
        json@ == tree_of(*value),
    decreases tree_of(*value),
{
    if let Some(b) = value_as_bool(value) {
        return Json::Bool(b);
    }
    if let Some(bits) = value_as_bits(value) {
        return Json::Number(Number { unsigned: value_as_u64(value), bits });
    }
    if let Some(s) = value_as_str(value) {
        return Json::Text(String::from_str(s));
    }
    if let Some(items) = value_as_array(value) {
        let ghost tree = tree_of(*value);
        let mut out: Vec<Json> = Vec::new();
        let mut i: usize = 0;
        while i < items.len()
            invariant
                i <= items.len(),
                out@.len() == i,
                tree == tree_of(*value),
                tree == JsonTree::Array(Seq::new(items@.len(), |k: int| tree_of(items@[k]))),
                forall|k: int| 0 <= k < i ==> (#[trigger] out@[k])@ == tree_of(items@[k]),
            decreases items.len() - i,
        {
            proof {
                assert(decreases_to!(tree => tree->Array_0));
                assert(decreases_to!(tree->Array_0 => (tree->Array_0)[i as int]));
            }
            let item = from_value(&items[i]);
            out.push(item);
            i += 1;
        }
        proof {
            lemma_array_view(out);
            assert(trees(out@) =~= tree->Array_0);
        }
        return Json::Array(out);
    }
    if let Some(entries) = value_as_entries(value) {
        let ghost tree = tree_of(*value);
        let mut out: Vec<(String, Json)> = Vec::new();
        let mut i: usize = 0;
        while i < entries.len()
            invariant
                i <= entries.len(),
                out@.len() == i,
                tree == tree_of(*value),
                tree == JsonTree::Object(
                    Seq::new(entries@.len(), |k: int| (entries@[k].0@, tree_of(*entries@[k].1))),
                ),
                forall|k: int|
                    0 <= k < i ==> (#[trigger] out@[k]).0@ == entries@[k].0@ && out@[k].1@
                        == tree_of(*entries@[k].1),
            decreases entries.len() - i,
        {
            proof {
                assert(decreases_to!(tree => tree->Object_0));
                assert(decreases_to!(tree->Object_0 => (tree->Object_0)[i as int]));
                assert(decreases_to!((tree->Object_0)[i as int] => (tree->Object_0)[i as int].1));
            }
            let name = entries[i].0.clone();
            let item = from_value(entries[i].1);
            out.push((name, item));
            i += 1;
        }
        proof {
            lemma_object_view(out);
            assert(entry_trees(out@) =~= tree->Object_0);
        }
        return Json::Object(out);
    }
    Json::Null
}

/// Parses one JSON document.
///
/// Returns `None` exactly where `serde_json` rejects the bytes; otherwise the
/// document that it read.
pub fn parse(bytes: &[u8]) -> (r: Option<Json>)
    ensures
        match r {
            Some(json) => parsed(bytes@) == Some(json@),
            None => parsed(bytes@) is None,
        },
{
    match value_from_slice(bytes) {
        Ok(value) => Some(from_value(&value)),
        Err(_) => None,
    }
}

impl Json {
    /// The text of a string.
    pub fn as_text(&self) -> (r: Option<&String>)
        ensures
            match r {
                Some(s) => self@ == JsonTree::Text(s@),
                None => !(self@ is Text),
            },
    {
        match self {
            Json::Text(s) => Some(s),
            _ => None,
        }
    }

    /// What is read of a number.
    pub fn as_number(&self) -> (r: Option<Number>)
        ensures
            match r {
                Some(n) => self@ == JsonTree::Number(n),
                None => !(self@ is Number),
            },
    {
        match self {
            Json::Number(n) => Some(*n),
            _ => None,
        }
    }

    /// The items of an array.
    pub fn as_array(&self) -> (r: Option<&Vec<Json>>)
        ensures
            match r {
                Some(items) => self@ == JsonTree::Array(trees(items@)),
                None => !(self@ is Array),
            },
    {
        match self {
            Json::Array(items) => {
                proof {
                    lemma_array_view(*items);
                }
                Some(items)
            },
            _ => None,
        }
    }

    /// Whether this is an object.
    pub fn is_object(&self) -> (r: bool)
        ensures
            r == (self@ is Object),
    {
        match self {
            Json::Object(_) => true,
            _ => false,
        }
    }

    /// The member named `key` of an object: `None` where this is no object or
    /// has no such member.
    pub fn get(&self, key: &str) -> (r: Option<&Json>)
        ensures
            match r {
                Some(json) => self@.get(key@) == Some(json@),
                None => self@.get(key@) is None,
            },
    {
        match self {
            Json::Object(entries) => {
                proof {
                    lemma_object_view(*entries);
                }
                let wanted = String::from_str(key);
                let ghost all = entry_trees(entries@);
                let mut i: usize = 0;
                assert(all.skip(0) =~= all);
                while i < entries.len()
                    invariant
                        i <= entries.len(),
                        wanted@ == key@,
                        all == entry_trees(entries@),
                        self@ == JsonTree::Object(all),
                        member(all, key@) == member(all.skip(i as int), key@),
                    decreases entries.len() - i,
                {
                    proof {
                        assert(all.skip(i as int).len() > 0);
                        assert(all.skip(i as int)[0] == all[i as int]);
                        assert(all[i as int] == (entries@[i as int].0@, entries@[i as int].1@));
                        assert(all.skip(i as int).drop_first() =~= all.skip(i + 1));
                    }
                    if entries[i].0 == wanted {
                        return Some(&entries[i].1);
                    }
                    i += 1;
                }
                None
            },
            _ => None,
        }
    }
}

/// The bit patterns of the first `n` items, where there are that many and all
/// of them are numbers.
pub fn scalars(items: &Vec<Json>, n: usize) -> (r: Option<Vec<u64>>)
    ensures
        match r {
            Some(bits) => leading_numbers(trees(items@), n as int) && bits@ == leading_scalars(
                trees(items@),
                n as int,
            ),
            None => !leading_numbers(trees(items@), n as int),
        },
{
    if items.len() < n {
        return None;
    }
    let mut bits: Vec<u64> = Vec::new();
    let mut i: usize = 0;
    while i < n
        invariant
            i <= n <= items.len(),
            bits@.len() == i,
            forall|k: int| 0 <= k < i ==> (#[trigger] trees(items@)[k]) is Number,
            forall|k: int| 0 <= k < i ==> (#[trigger] bits@[k]) == trees(items@)[k]->Number_0.bits,
        decreases n - i,
    {
        match items[i].as_number() {
            Some(number) => {
                bits.push(number.bits);
            },
            None => {
                assert(!(trees(items@)[i as int] is Number));
                return None;
            },
        }
        i += 1;
    }
    assert(bits@ =~= leading_scalars(trees(items@), n as int));
    Some(bits)
}

} // verus!
