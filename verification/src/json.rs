//! JSON documents as the agent backend sends them.

use crate::text;
use vstd::prelude::*;
use vstd::string::*;

verus! {

/// A JSON document. Numbers keep their text: nothing here computes with them.
#[derive(Debug)]
pub enum Json {
    Null,
    Bool(bool),
    Number(String),
    Str(String),
    Array(Vec<Json>),
    Object(Vec<(String, Json)>),
}

/// The mathematical value of a document.
pub enum JsonTree {
    Null,
    Bool(bool),
    Number(Seq<char>),
    Str(Seq<char>),
    Array(Seq<JsonTree>),
    Object(Seq<(Seq<char>, JsonTree)>),
}

impl View for Json {
    type V = JsonTree;

    open spec fn view(&self) -> JsonTree {
        tree_of(*self)
    }
}

pub open spec fn tree_of(j: Json) -> JsonTree
    decreases j,
{
    match j {
        Json::Null => JsonTree::Null,
        Json::Bool(b) => JsonTree::Bool(b),
        Json::Number(s) => JsonTree::Number(s@),
        Json::Str(s) => JsonTree::Str(s@),
        Json::Array(v) => JsonTree::Array(
            Seq::new(
                v@.len(),
                |i: int|
                    if 0 <= i < v@.len() {
                        tree_of(v@[i])
                    } else {
                        JsonTree::Null
                    },
            ),
        ),
        Json::Object(v) => JsonTree::Object(
            Seq::new(
                v@.len(),
                |i: int|
                    if 0 <= i < v@.len() {
                        (v@[i].0@, tree_of(v@[i].1))
                    } else {
                        (Seq::empty(), JsonTree::Null)
                    },
            ),
        ),
    }
}

/// The value of the first entry named `key`.
pub open spec fn entry(entries: Seq<(Seq<char>, JsonTree)>, key: Seq<char>) -> Option<JsonTree>
    decreases entries.len(),
{
    if entries.len() == 0 {
        None
    } else if entries[0].0 == key {
        Some(entries[0].1)
    } else {
        entry(entries.drop_first(), key)
    }
}

impl JsonTree {
    /// The field `key` of an object.
    pub open spec fn get(self, key: Seq<char>) -> Option<JsonTree> {
        match self {
            JsonTree::Object(entries) => entry(entries, key),
            _ => None,
        }
    }

    pub open spec fn as_str(self) -> Option<Seq<char>> {
        match self {
            JsonTree::Str(s) => Some(s),
            _ => None,
        }
    }

    pub open spec fn as_array(self) -> Option<Seq<JsonTree>> {
        match self {
            JsonTree::Array(v) => Some(v),
            _ => None,
        }
    }

    /// The text of the field `key`.
    pub open spec fn str_at(self, key: Seq<char>) -> Option<Seq<char>> {
        match self.get(key) {
            Some(v) => v.as_str(),
            None => None,
        }
    }
}

pub open spec fn opt_tree(o: Option<&Json>) -> Option<JsonTree> {
    match o {
        Some(j) => Some(j@),
        None => None,
    }
}

pub open spec fn opt_str(o: Option<&str>) -> Option<Seq<char>> {
    match o {
        Some(s) => Some(s@),
        None => None,
    }
}

/// The values of a list of documents.
pub open spec fn trees(v: Seq<Json>) -> Seq<JsonTree> {
    Seq::new(v.len(), |i: int| v[i]@)
}

impl Json {
    /// The field `key`, if this is an object that has it.
    pub fn get(&self, key: &str) -> (r: Option<&Json>)
        ensures
            opt_tree(r) == self@.get(key@),
    {
        match self {
            Json::Object(v) => {
                let ghost all = self@->Object_0;
                let mut i: usize = 0;
                proof {
                    assert(all.skip(0) =~= all);
                }
                while i < v.len()
                    invariant
                        i <= v@.len(),
                        *self == Json::Object(*v),
                        all == self@->Object_0,
                        self@.get(key@) == entry(all.skip(i as int), key@),
                    decreases v@.len() - i,
                {
                    proof {
                        assert(all.skip(i as int).drop_first() =~= all.skip(i + 1));
                        assert(all.skip(i as int)[0] == (v@[i as int].0@, tree_of(v@[i as int].1)));
                    }
                    if text::same_text(v[i].0.as_str(), key) {
                        return Some(&v[i].1);
                    }
                    i = i + 1;
                }
                None
            },
            _ => None,
        }
    }

    /// The text, if this is a string.
    pub fn as_str(&self) -> (r: Option<&str>)
        ensures
            opt_str(r) == self@.as_str(),
    {
        match self {
            Json::Str(s) => Some(s.as_str()),
            _ => None,
        }
    }

    /// The elements, if this is an array.
    pub fn as_array(&self) -> (r: Option<&Vec<Json>>)
        ensures
            match r {
                Some(v) => self@.as_array() == Some(trees(v@)),
                None => self@.as_array() is None,
            },
    {
        match self {
            Json::Array(v) => {
                proof {
                    assert(trees(v@) =~= self@->Array_0);
                }
                Some(v)
            },
            _ => None,
        }
    }

    /// The text of the field `key`, if this is an object that has it.
    pub fn str_at(&self, key: &str) -> (r: Option<&str>)
        ensures
            opt_str(r) == self@.str_at(key@),
    {
        match self.get(key) {
            Some(v) => v.as_str(),
            None => None,
        }
    }
}

// ---- parsing ----

/// `serde_json::Value`, the parsed document of the `serde_json` crate.
#[verifier::external_type_specification]
#[verifier::external_body]
pub struct ExValue(serde_json::Value);

/// What a `serde_json::Value` holds.
pub uninterp spec fn value_tree(value: serde_json::Value) -> JsonTree;

/// The document that a text spells, if it spells one.
pub uninterp spec fn json_text(text: Seq<char>) -> Option<JsonTree>;

/// The outermost layer of a parsed document.
pub enum Layer {
    Null,
    Bool(bool),
    Number(String),
    Str(String),
    Array(Vec<serde_json::Value>),
    Object(Vec<(String, serde_json::Value)>),
}

pub open spec fn layer_tree(layer: Layer) -> JsonTree {
    match layer {
        Layer::Null => JsonTree::Null,
        Layer::Bool(b) => JsonTree::Bool(b),
        Layer::Number(s) => JsonTree::Number(s@),
        Layer::Str(s) => JsonTree::Str(s@),
        Layer::Array(v) => JsonTree::Array(Seq::new(v@.len(), |i: int| value_tree(v@[i]))),
        Layer::Object(v) => JsonTree::Object(
            Seq::new(v@.len(), |i: int| (v@[i].0@, value_tree(v@[i].1))),
        ),
    }
}

/// Takes the variants of `serde_json::Value` apart, one layer: the variant and
/// its fields are those of the value, a number given by its text.
#[verifier::external_body]
fn layer_of(value: serde_json::Value) -> (r: Layer)
    ensures
        layer_tree(r) == value_tree(value),
{
    match value {
        serde_json::Value::Null => Layer::Null,
        serde_json::Value::Bool(b) => Layer::Bool(b),
        serde_json::Value::Number(n) => Layer::Number(n.to_string()),
        serde_json::Value::String(s) => Layer::Str(s),
        serde_json::Value::Array(v) => Layer::Array(v),
        serde_json::Value::Object(m) => Layer::Object(m.into_iter().collect()),
    }
}

/// `serde_json::from_str` into a `Value`: the document that the text spells, or
/// nothing where it spells none. Which texts those are is left to the crate.
#[verifier::external_body]
fn parse_value(text: &str) -> (r: Option<serde_json::Value>)
    ensures
        match r {
            Some(v) => json_text(text@) == Some(value_tree(v)),
            None => json_text(text@) is None,
        },
{
    serde_json::from_str::<serde_json::Value>(text).ok()
}

/// A parsed document of the `serde_json` crate, as a document of this library.
pub fn into_json(value: serde_json::Value) -> (r: Json)
    ensures
        r@ == value_tree(value),
    decreases value_tree(value),
{
    let ghost tree = value_tree(value);
    match layer_of(value) {
        Layer::Null => Json::Null,
        Layer::Bool(b) => Json::Bool(b),
        Layer::Number(s) => Json::Number(s),
        Layer::Str(s) => Json::Str(s),
        Layer::Array(items) => {
            let mut rest = items;
            let mut out: Vec<Json> = Vec::new();
            while rest.len() > 0
                invariant
                    rest@.len() + out@.len() == items@.len(),
                    tree == layer_tree(Layer::Array(items)),
                    tree == value_tree(value),
                    rest@ == items@.take(rest@.len() as int),
                    forall|i: int|
                        0 <= i < out@.len() ==> (#[trigger] out@[i])@ == value_tree(
                            items@[items@.len() - 1 - i],
                        ),
                decreases rest@.len(),
            {
                let ghost n = rest@.len() - 1;
                let item = rest.pop();
                match item {
                    Some(v) => {
                        proof {
                            assert(v == items@[n]);
                            assert(tree->Array_0[n] == value_tree(v));
                        }
                        out.push(into_json(v));
                    },
                    None => {},
                }
            }
            let mut result: Vec<Json> = Vec::new();
            while out.len() > 0
                invariant
                    result@.len() + out@.len() == items@.len(),
                    forall|i: int|
                        0 <= i < out@.len() ==> (#[trigger] out@[i])@ == value_tree(
                            items@[items@.len() - 1 - i],
                        ),
                    forall|i: int|
                        0 <= i < result@.len() ==> (#[trigger] result@[i])@ == value_tree(
                            items@[i],
                        ),
                decreases out@.len(),
            {
                match out.pop() {
                    Some(j) => {
                        result.push(j);
                    },
                    None => {},
                }
            }
            proof {
                assert(Json::Array(result)@->Array_0 =~= tree->Array_0);
            }
            Json::Array(result)
        },
        Layer::Object(items) => {
            let mut rest = items;
            let mut out: Vec<(String, Json)> = Vec::new();
            while rest.len() > 0
                invariant
                    rest@.len() + out@.len() == items@.len(),
                    tree == layer_tree(Layer::Object(items)),
                    tree == value_tree(value),
                    rest@ == items@.take(rest@.len() as int),
                    forall|i: int|
                        0 <= i < out@.len() ==> ({
                            let item = items@[items@.len() - 1 - i];
                            (#[trigger] out@[i]).0@ == item.0@ && out@[i].1@ == value_tree(item.1)
                        }),
                decreases rest@.len(),
            {
                let ghost n = rest@.len() - 1;
                let item = rest.pop();
                match item {
                    Some((k, v)) => {
                        proof {
                            assert((k, v) == items@[n]);
                            assert(tree->Object_0[n] == (k@, value_tree(v)));
                            assert(decreases_to!(tree->Object_0 => tree->Object_0[n]));
                            assert(decreases_to!(tree->Object_0[n] => tree->Object_0[n].1));
                            assert(decreases_to!(tree => tree->Object_0[n].1));
                        }
                        out.push((k, into_json(v)));
                    },
                    None => {},
                }
            }
            let mut result: Vec<(String, Json)> = Vec::new();
            while out.len() > 0
                invariant
                    result@.len() + out@.len() == items@.len(),
                    forall|i: int|
                        0 <= i < out@.len() ==> ({
                            let item = items@[items@.len() - 1 - i];
                            (#[trigger] out@[i]).0@ == item.0@ && out@[i].1@ == value_tree(item.1)
                        }),
                    forall|i: int|
                        0 <= i < result@.len() ==> (#[trigger] result@[i]).0@ == items@[i].0@
                            && result@[i].1@ == value_tree(items@[i].1),
                decreases out@.len(),
            {
                match out.pop() {
                    Some(j) => {
                        result.push(j);
                    },
                    None => {},
                }
            }
            proof {
                assert(Json::Object(result)@->Object_0 =~= tree->Object_0);
            }
            Json::Object(result)
        },
    }
}

/// The document that `text` spells, if it spells one.
pub fn parse(text: &str) -> (r: Option<Json>)
    ensures
        match r {
            Some(j) => json_text(text@) == Some(j@),
            None => json_text(text@) is None,
        },
{
    match parse_value(text) {
        Some(v) => Some(into_json(v)),
        None => None,
    }
}

// ---- copying ----

impl Json {
    /// A copy of the document.
    pub fn copy(&self) -> (r: Json)
        ensures
            r@ == self@,
        decreases self,
    {
        match self {
            Json::Null => Json::Null,
            Json::Bool(b) => Json::Bool(*b),
            Json::Number(s) => Json::Number(s.clone()),
            Json::Str(s) => Json::Str(s.clone()),
            Json::Array(v) => {
                let mut out: Vec<Json> = Vec::new();
                let mut i: usize = 0;
                while i < v.len()
                    invariant
                        i <= v@.len(),
                        out@.len() == i,
                        *self == Json::Array(*v),
                        forall|k: int| 0 <= k < i ==> (#[trigger] out@[k])@ == v@[k]@,
                    decreases v@.len() - i,
                {
                    proof {
                        assert(decreases_to!(*self => self->Array_0@[i as int]));
                    }
                    out.push(v[i].copy());
                    i = i + 1;
                }
                proof {
                    assert(Json::Array(out)@->Array_0 =~= self@->Array_0);
                }
                Json::Array(out)
            },
            Json::Object(v) => {
                let mut out: Vec<(String, Json)> = Vec::new();
                let mut i: usize = 0;
                while i < v.len()
                    invariant
                        i <= v@.len(),
                        out@.len() == i,
                        *self == Json::Object(*v),
                        forall|k: int|
                            0 <= k < i ==> (#[trigger] out@[k]).0@ == v@[k].0@ && out@[k].1@
                                == v@[k].1@,
                    decreases v@.len() - i,
                {
                    proof {
                        assert(decreases_to!(*self => self->Object_0@[i as int].1));
                    }
                    out.push((v[i].0.clone(), v[i].1.copy()));
                    i = i + 1;
                }
                proof {
                    assert(Json::Object(out)@->Object_0 =~= self@->Object_0);
                }
                Json::Object(out)
            },
        }
    }
}

} // verus!
