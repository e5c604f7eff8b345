//! The JSON tree the pipeline normalizes from.
//!
//! Upstream payloads arrive as text. A single trusted call turns the text
//! into [`JsonValue`], a tagged union of plain values that every later
//! stage reads under full verification. Numbers are relayed exactly: an
//! integer as a machine integer, anything else as its decimal text.
//! Contracts speak of [`Json`], the mathematical shape of a tree.

use vstd::prelude::*;

verus! {

broadcast use {
    vstd::std_specs::vec::axiom_vec_index_decreases,
    vstd::std_specs::vec::axiom_vec_decreases_to_view,
    vstd::seq::axiom_seq_index_decreases,
};

/// A JSON number relayed without coercion: a machine integer, or the
/// decimal text of a non-integer number kept verbatim.
#[derive(Debug, PartialEq, Eq)]
pub enum JsonNumber {
    Int(i64),
    Dec(String),
}

/// The mathematical shape of a [`JsonNumber`].
pub enum NumModel {
    Int(int),
    Dec(Seq<char>),
}

impl View for JsonNumber {
    type V = NumModel;

    open spec fn view(&self) -> NumModel {
        match self {
            JsonNumber::Int(n) => NumModel::Int(*n as int),
            JsonNumber::Dec(t) => NumModel::Dec(t@),
        }
    }
}

/// A JSON value: the loosely-typed tree an upstream payload decodes to.
/// An object keeps its fields in the order the decoder hands them over;
/// a lookup takes the first field with the asked-for name.
#[derive(Debug, PartialEq, Eq)]
pub enum JsonValue {
    Null,
    Bool(bool),
    Int(i64),
    Num(String),
    Text(String),
    Array(Vec<JsonValue>),
    Object(Vec<(String, JsonValue)>),
}

/// The mathematical shape of a [`JsonValue`]: text as character
/// sequences, integers unbounded, children as sequences.
pub enum Json {
    Null,
    Bool(bool),
    Int(int),
    Num(Seq<char>),
    Text(Seq<char>),
    Array(Seq<Json>),
    Object(Seq<(Seq<char>, Json)>),
}

/// The model of a [`JsonValue`].
pub open spec fn json_model(v: JsonValue) -> Json
    decreases v,
{
    match v {
        JsonValue::Null => Json::Null,
        JsonValue::Bool(b) => Json::Bool(b),
        JsonValue::Int(n) => Json::Int(n as int),
        JsonValue::Num(t) => Json::Num(t@),
        JsonValue::Text(t) => Json::Text(t@),
        JsonValue::Array(items) => Json::Array(json_model_seq(items@)),
        JsonValue::Object(fields) => Json::Object(json_model_fields(fields@)),
    }
}

/// The models of an array's items, in order.
pub open spec fn json_model_seq(s: Seq<JsonValue>) -> Seq<Json>
    decreases s,
{
    if s.len() == 0 {
        Seq::empty()
    } else {
        seq![json_model(s[0])] + json_model_seq(s.subrange(1, s.len() as int))
    }
}

/// The models of an object's fields, in order.
pub open spec fn json_model_fields(s: Seq<(String, JsonValue)>) -> Seq<(Seq<char>, Json)>
    decreases s,
{
    if s.len() == 0 {
        Seq::empty()
    } else {
        seq![(s[0].0@, json_model(s[0].1))] + json_model_fields(s.subrange(1, s.len() as int))
    }
}

/// An array's model has one entry per item, each the item's model.
pub proof fn lemma_json_model_seq(s: Seq<JsonValue>)
    ensures
        json_model_seq(s).len() == s.len(),
        forall|i: int| 0 <= i < s.len() ==> json_model_seq(s)[i] == json_model(s[i]),
    decreases s,
{
    if s.len() > 0 {
        lemma_json_model_seq(s.subrange(1, s.len() as int));
    }
}

/// An object's model has one entry per field: its name and its value's model.
pub proof fn lemma_json_model_fields(s: Seq<(String, JsonValue)>)
    ensures
        json_model_fields(s).len() == s.len(),
        forall|i: int|
            0 <= i < s.len() ==> json_model_fields(s)[i] == (s[i].0@, json_model(s[i].1)),
    decreases s,
{
    if s.len() > 0 {
        lemma_json_model_fields(s.subrange(1, s.len() as int));
    }
}

impl View for JsonValue {
    type V = Json;

    open spec fn view(&self) -> Json {
        json_model(*self)
    }
}

/// What decoding a given text yields: `Some` JSON tree, or `None` where
/// the text is not valid JSON. Decoding depends on the text alone.
pub uninterp spec fn json_of_text(s: Seq<char>) -> Option<Json>;

/// Relies on `serde_json::from_str::<serde_json::Value>`: decoding either
/// fails or yields a value tree determined by the text alone, which the
/// body maps variant by variant onto [`JsonValue`].
#[verifier::external_body]
pub fn parse_json(text: &str) -> (r: Option<JsonValue>)
    ensures
        match r {
            Some(v) => json_of_text(text@) == Some(v@),
            None => json_of_text(text@) is None,
        },
{
    match serde_json::from_str::<serde_json::Value>(text) {
        Ok(v) => Some(convert_value(&v)),
        Err(_) => None,
    }
}

/// Declares `serde_json::Value` so that [`convert_value`] can take it.
#[verifier::external_type_specification]
#[verifier::external_body]
pub struct ExSerdeValue(serde_json::Value);

/// Relies on the `serde_json::Value` constructors alone; this is the body
/// of [`parse_json`]'s conversion, one arm per upstream variant, and is
/// called from nowhere else.
#[verifier::external_body]
fn convert_value(v: &serde_json::Value) -> JsonValue {
    match v {
        serde_json::Value::Null => JsonValue::Null,
        serde_json::Value::Bool(b) => JsonValue::Bool(*b),
        serde_json::Value::Number(n) => match n.as_i64() {
            Some(i) => JsonValue::Int(i),
            None => JsonValue::Num(n.to_string()),
        },
        serde_json::Value::String(s) => JsonValue::Text(s.clone()),
        serde_json::Value::Array(items) => JsonValue::Array(items.iter().map(convert_value).collect()),
        serde_json::Value::Object(fields) => JsonValue::Object(
            fields.iter().map(|(k, w)| (k.clone(), convert_value(w))).collect(),
        ),
    }
}

/// The first field of `fs` named `key`, if any.
pub open spec fn obj_get(fs: Seq<(Seq<char>, Json)>, key: Seq<char>) -> Option<Json>
    decreases fs.len(),
{
    if fs.len() == 0 {
        None
    } else if fs[0].0 == key {
        Some(fs[0].1)
    } else {
        obj_get(fs.drop_first(), key)
    }
}

/// Finds the first field named `key` among an object's fields.
#[verifier::loop_isolation(false)]
pub fn get_field<'a>(fs: &'a Vec<(String, JsonValue)>, key: &str) -> (r: Option<&'a JsonValue>)
    ensures
        match r {
            Some(v) => obj_get(json_model_fields(fs@), key@) == Some(v@),
            None => obj_get(json_model_fields(fs@), key@) is None,
        },
{
    proof {
        lemma_json_model_fields(fs@);
        assert(json_model_fields(fs@).skip(0) =~= json_model_fields(fs@));
    }
    let ghost m = json_model_fields(fs@);
    let owned_key: String = key.to_owned();
    let mut i: usize = 0;
    while i < fs.len()
        invariant
            0 <= i <= fs@.len(),
            obj_get(m, key@) == obj_get(m.skip(i as int), key@),
        decreases fs@.len() - i,
    {
        proof {
            assert(m.skip(i as int)[0] == m[i as int]);
        }
        if fs[i].0.eq(&owned_key) {
            return Some(&fs[i].1);
        }
        proof {
            assert(m.skip(i as int).drop_first() =~= m.skip(i as int + 1));
        }
        i = i + 1;
    }
    proof {
        assert(m.skip(i as int).len() == 0);
    }
    None
}

/// A deep copy of a JSON tree: the copy has the model of its source.
#[verifier::loop_isolation(false)]
pub fn clone_json(v: &JsonValue) -> (r: JsonValue)
    ensures
        r@ == v@,
    decreases *v,
{
    match v {
        JsonValue::Null => JsonValue::Null,
        JsonValue::Bool(b) => JsonValue::Bool(*b),
        JsonValue::Int(n) => JsonValue::Int(*n),
        JsonValue::Num(t) => JsonValue::Num(t.clone()),
        JsonValue::Text(t) => JsonValue::Text(t.clone()),
        JsonValue::Array(items) => {
            let mut out: Vec<JsonValue> = Vec::new();
            let mut i: usize = 0;
            while i < items.len()
                invariant
                    0 <= i <= items@.len(),
                    out@.len() == i,
                    forall|k: int| 0 <= k < i ==> out@[k]@ == items@[k]@,
                decreases items@.len() - i,
            {
                proof {
                    assert(decreases_to!(*v => v->Array_0));
                    assert(decreases_to!(*items => items[i as int]));
                }
                out.push(clone_json(&items[i]));
                i = i + 1;
            }
            let r = JsonValue::Array(out);
            proof {
                lemma_json_model_seq(out@);
                lemma_json_model_seq(items@);
                assert(json_model_seq(out@) =~= json_model_seq(items@));
            }
            r
        },
        JsonValue::Object(fields) => {
            let mut out: Vec<(String, JsonValue)> = Vec::new();
            let mut i: usize = 0;
            while i < fields.len()
                invariant
                    0 <= i <= fields@.len(),
                    out@.len() == i,
                    forall|k: int|
                        0 <= k < i ==> out@[k].0@ == fields@[k].0@ && out@[k].1@ == fields@[k].1@,
                decreases fields@.len() - i,
            {
                proof {
                    assert(decreases_to!(*v => v->Object_0));
                    assert(decreases_to!(*fields => fields[i as int]));
                    assert(decreases_to!(fields[i as int] => fields[i as int].1));
                }
                let name = fields[i].0.clone();
                let value = clone_json(&fields[i].1);
                out.push((name, value));
                i = i + 1;
            }
            let r = JsonValue::Object(out);
            proof {
                lemma_json_model_fields(out@);
                lemma_json_model_fields(fields@);
                assert(json_model_fields(out@) =~= json_model_fields(fields@));
            }
            r
        },
    }
}

} // verus!
