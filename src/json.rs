//! The machine-readable output of the flake tool: a JSON document whose
//! `variables` object maps each name to an object with a string `value`.

use vstd::prelude::*;

use crate::text::{chars_of, str_eq};
use crate::vars::EnvVars;

verus! {

/// `serde_json::Value`, carried opaque from the parser into the conversion below.
#[verifier::external_type_specification]
#[verifier::external_body]
pub struct ExValue(serde_json::Value);

/// A JSON value. Numbers are kept as their text.
#[derive(Debug)]
pub enum JsonValue {
    Null,
    Bool(bool),
    Number(String),
    Str(String),
    Array(Vec<JsonValue>),
    Object(Vec<(String, JsonValue)>),
}

/// The value that `serde_json` reads from a text, `None` where the text is not JSON.
pub uninterp spec fn json_document(s: Seq<char>) -> Option<JsonValue>;

/// Relies on the variants of `serde_json::Value`: each is moved into its
/// counterpart, members in the order the map yields them, a number as the text
/// that `serde_json::Number`'s `Display` gives.
#[verifier::external_body]
fn json_from_value(v: serde_json::Value) -> JsonValue {
    match v {
        serde_json::Value::Null => JsonValue::Null,
        serde_json::Value::Bool(b) => JsonValue::Bool(b),
        serde_json::Value::Number(n) => JsonValue::Number(n.to_string()),
        serde_json::Value::String(s) => JsonValue::Str(s),
        serde_json::Value::Array(a) => JsonValue::Array(a.into_iter().map(json_from_value).collect()),
        serde_json::Value::Object(o) => JsonValue::Object(
            o.into_iter().map(|(k, v)| (k, json_from_value(v))).collect(),
        ),
    }
}

/// Relies on `serde_json::from_str::<serde_json::Value>`: the document that
/// `s` holds, which depends on `s` alone; `None` where `s` is not JSON.
#[verifier::external_body]
pub(crate) fn parse_json(s: &str) -> (r: Option<JsonValue>)
    ensures
        r == json_document(s@),
{
    serde_json::from_str::<serde_json::Value>(s).ok().map(json_from_value)
}

/// The member `key` of an object's members, the first where it repeats.
pub open spec fn object_get(entries: Seq<(String, JsonValue)>, key: Seq<char>) -> Option<JsonValue>
    decreases entries.len(),
{
    if entries.len() == 0 {
        None
    } else if entries[0].0@ == key {
        Some(entries[0].1)
    } else {
        object_get(entries.drop_first(), key)
    }
}

/// The member `key` of `v`, where `v` is an object that has it.
pub open spec fn field(v: JsonValue, key: Seq<char>) -> Option<JsonValue> {
    match v {
        JsonValue::Object(es) => object_get(es@, key),
        _ => None,
    }
}

/// The string that `v` holds as its `value` member, if any.
pub open spec fn string_value(v: JsonValue) -> Option<Seq<char>> {
    match field(v, "value"@) {
        Some(JsonValue::Str(s)) => Some(s@),
        _ => None,
    }
}

/// `m` with each member of `es` whose `value` is a string.
pub open spec fn vars_fold(m: Map<Seq<char>, Seq<char>>, es: Seq<(String, JsonValue)>) -> Map<
    Seq<char>,
    Seq<char>,
>
    decreases es.len(),
{
    if es.len() == 0 {
        m
    } else {
        let m2 = match string_value(es[0].1) {
            Some(s) => m.insert(es[0].0@, s),
            None => m,
        };
        vars_fold(m2, es.drop_first())
    }
}

/// The variables of a document: each member of its `variables` object whose
/// `value` is a string. A document without such an object has none.
pub open spec fn json_variables(doc: JsonValue) -> Map<Seq<char>, Seq<char>> {
    match field(doc, "variables"@) {
        Some(JsonValue::Object(es)) => vars_fold(Map::empty(), es@),
        _ => Map::empty(),
    }
}

/// A JSON whitespace character.
pub open spec fn is_json_space(c: char) -> bool {
    c == ' ' || c == '\t' || c == '\n' || c == '\r'
}

/// Whether the first character of `s` after JSON whitespace is `{`.
pub open spec fn looks_like_json(s: Seq<char>) -> bool
    decreases s.len(),
{
    if s.len() == 0 {
        false
    } else if is_json_space(s[0]) {
        looks_like_json(s.drop_first())
    } else {
        s[0] == '{'
    }
}

/// The member `key` of `v`, where `v` is an object that has it.
pub fn get_field<'a>(v: &'a JsonValue, key: &str) -> (r: Option<&'a JsonValue>)
    ensures
        match r {
            Some(x) => field(*v, key@) == Some(*x),
            None => field(*v, key@) is None,
        },
{
    match v {
        JsonValue::Object(es) => {
            let mut i: usize = 0;
            assert(es@.subrange(0, es@.len() as int) == es@);
            assert(field(*v, key@) == object_get(es@, key@));
            while i < es.len()
                invariant
                    i <= es@.len(),
                    field(*v, key@) == object_get(es@, key@),
                    object_get(es@, key@) == object_get(
                        es@.subrange(i as int, es@.len() as int),
                        key@,
                    ),
                decreases es.len() - i,
            {
                let ghost t = es@.subrange(i as int, es@.len() as int);
                assert(t[0] == es@[i as int]);
                assert(t.drop_first() == es@.subrange(i + 1, es@.len() as int));
                if str_eq(es[i].0.as_str(), key) {
                    assert(object_get(t, key@) == Some(es@[i as int].1));
                    return Some(&es[i].1);
                }
                i = i + 1;
            }
            None
        },
        _ => None,
    }
}

/// The variables of a parsed document.
pub fn variables_from_json(doc: &JsonValue) -> (r: EnvVars)
    ensures
        r.wf(),
        r@ == json_variables(*doc),
{
    let mut vars = EnvVars::new();
    match get_field(doc, "variables") {
        Some(JsonValue::Object(es)) => {
            let mut i: usize = 0;
            assert(es@.subrange(0, es@.len() as int) == es@);
            while i < es.len()
                invariant
                    i <= es@.len(),
                    vars.wf(),
                    vars_fold(vars@, es@.subrange(i as int, es@.len() as int)) == json_variables(
                        *doc,
                    ),
                decreases es.len() - i,
            {
                let ghost t = es@.subrange(i as int, es@.len() as int);
                assert(t[0] == es@[i as int]);
                assert(t.drop_first() == es@.subrange(i + 1, es@.len() as int));
                match get_field(&es[i].1, "value") {
                    Some(JsonValue::Str(s)) => {
                        vars.insert(es[i].0.clone(), s.clone());
                    },
                    _ => {},
                }
                i = i + 1;
            }
            assert(es@.subrange(i as int, es@.len() as int) == Seq::<(String, JsonValue)>::empty());
        },
        _ => {},
    }
    vars
}

pub(crate) fn is_json_text(s: &str) -> (r: bool)
    ensures
        r == looks_like_json(s@),
{
    let cs = chars_of(s);
    let mut i: usize = 0;
    assert(cs@.subrange(0, cs@.len() as int) == cs@);
    while i < cs.len()
        invariant
            i <= cs@.len(),
            cs@ == s@,
            looks_like_json(s@) == looks_like_json(cs@.subrange(i as int, cs@.len() as int)),
        decreases cs.len() - i,
    {
        let ghost t = cs@.subrange(i as int, cs@.len() as int);
        assert(t[0] == cs@[i as int]);
        assert(t.drop_first() == cs@.subrange(i + 1, cs@.len() as int));
        let c = cs[i];
        if c == ' ' || c == '\t' || c == '\n' || c == '\r' {
            i = i + 1;
        } else {
            return c == '{';
        }
    }
    false
}


} // verus!
