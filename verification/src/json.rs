//! A structured-output document model: the library's own JSON value tree,
//! decoded from raw text through `serde_json`, and verified field lookup
//! helpers over it.

use vstd::prelude::*;

verus! {

/// One node of a structured-output document. Numbers are kept only when they
/// fit a signed 64-bit integer; any other number decodes as `Null`, which the
/// lenient field readers treat as an absent value.
#[derive(Debug)]
pub enum JsonValue {
    Null,
    Bool(bool),
    Int(i64),
    Text(String),
    Arr(Vec<JsonValue>),
    Obj(Vec<(String, JsonValue)>),
}

/// The document that decoding `text` yields, or `None` when the text is not
/// well-formed JSON. Decoding is a function of the text alone.
pub uninterp spec fn json_doc(text: Seq<char>) -> Option<JsonValue>;

/// Relies on `serde_json::from_str::<serde_json::Value>`: deterministic in the
/// input text, `Ok` exactly on well-formed JSON, `Err` carrying the decode
/// diagnostic. The value is carried over to the library's model one node at a
/// time by `value_to_json`.
#[verifier::external_body]
pub fn decode_json(text: &str) -> (r: Result<JsonValue, String>)
    ensures
        r matches Ok(v) ==> json_doc(text@) == Some(v),
        r is Err ==> json_doc(text@) is None,
{
    match serde_json::from_str::<serde_json::Value>(text) {
        Ok(v) => Ok(value_to_json(v)),
        Err(e) => Err(e.to_string()),
    }
}

/// Declares `serde_json::Value` so that a decoded node can pass between the
/// trusted decode items; the library never looks inside such a value.
#[verifier::external_type_specification]
#[verifier::external_body]
pub struct ExValue(serde_json::Value);

/// Relies on `serde_json::Value`: one arm per variant, each moved over
/// one-for-one; a number is kept through `Number::as_i64` where it fits and
/// becomes `Null` otherwise.
#[verifier::external_body]
fn value_to_json(v: serde_json::Value) -> JsonValue {
    match v {
        serde_json::Value::Null => JsonValue::Null,
        serde_json::Value::Bool(b) => JsonValue::Bool(b),
        serde_json::Value::Number(n) => match n.as_i64() {
            Some(i) => JsonValue::Int(i),
            None => JsonValue::Null,
        },
        serde_json::Value::String(s) => JsonValue::Text(s),
        serde_json::Value::Array(a) => JsonValue::Arr(a.into_iter().map(value_to_json).collect()),
        serde_json::Value::Object(m) => JsonValue::Obj(
            m.into_iter().map(|(k, f)| (k, value_to_json(f))).collect(),
        ),
    }
}

/// The value under the first binding of `key` among `fields`.
pub open spec fn lookup_fields(fields: Seq<(String, JsonValue)>, key: Seq<char>) -> Option<
    JsonValue,
>
    decreases fields.len(),
{
    if fields.len() == 0 {
        None
    } else if fields.first().0@ == key {
        Some(fields.first().1)
    } else {
        lookup_fields(fields.drop_first(), key)
    }
}

/// The value of the member `key` of `v`, when `v` is an object that has one.
pub open spec fn json_field(v: JsonValue, key: Seq<char>) -> Option<JsonValue> {
    match v {
        JsonValue::Obj(fields) => lookup_fields(fields@, key),
        _ => None,
    }
}

/// The string member `key` of `v`; absent when missing or of another shape.
pub open spec fn field_str(v: JsonValue, key: Seq<char>) -> Option<String> {
    match json_field(v, key) {
        Some(JsonValue::Text(s)) => Some(s),
        _ => None,
    }
}

/// The boolean member `key` of `v`; absent when missing or of another shape.
pub open spec fn field_bool(v: JsonValue, key: Seq<char>) -> Option<bool> {
    match json_field(v, key) {
        Some(JsonValue::Bool(b)) => Some(b),
        _ => None,
    }
}

/// The integer member `key` of `v`; absent when missing or of another shape.
pub open spec fn field_int(v: JsonValue, key: Seq<char>) -> Option<i64> {
    match json_field(v, key) {
        Some(JsonValue::Int(i)) => Some(i),
        _ => None,
    }
}

/// The elements of the array member `key` of `v`.
pub open spec fn field_arr(v: JsonValue, key: Seq<char>) -> Option<Seq<JsonValue>> {
    match json_field(v, key) {
        Some(JsonValue::Arr(items)) => Some(items@),
        _ => None,
    }
}

/// The strings of `items`, when every element is a string.
pub open spec fn strings_of(items: Seq<JsonValue>) -> Option<Seq<String>>
    decreases items.len(),
{
    if items.len() == 0 {
        Some(Seq::<String>::empty())
    } else {
        match (items.first(), strings_of(items.drop_first())) {
            (JsonValue::Text(s), Some(rest)) => Some(seq![s] + rest),
            _ => None,
        }
    }
}

/// The member `key` of `v` read as a list of strings; absent when missing,
/// not an array, or holding a non-string element.
pub open spec fn field_str_list(v: JsonValue, key: Seq<char>) -> Option<Seq<String>> {
    match field_arr(v, key) {
        Some(items) => strings_of(items),
        None => None,
    }
}

/// Character-for-character string comparison.
pub fn str_eq(a: &str, b: &str) -> (r: bool)
    ensures
        r == (a@ == b@),
{
    let n = a.unicode_len();
    if n != b.unicode_len() {
        return false;
    }
    let mut i: usize = 0;
    while i < n
        invariant
            0 <= i <= n,
            n == a@.len() && n == b@.len(),
            forall|j: int| 0 <= j < i ==> a@[j] == b@[j],
        decreases n - i,
    {
        if a.get_char(i) != b.get_char(i) {
            return false;
        }
        i += 1;
    }
    proof {
        assert(a@ =~= b@);
    }
    true
}

/// Looks up the member `key` of `v`, when `v` is an object that has one.
#[verifier::loop_isolation(false)]
pub fn obj_field<'a>(v: &'a JsonValue, key: &str) -> (r: Option<&'a JsonValue>)
    ensures
        match r {
            Some(f) => json_field(*v, key@) == Some(*f),
            None => json_field(*v, key@) is None,
        },
{
    match v {
        JsonValue::Obj(fields) => {
            let mut i: usize = 0;
            proof {
                assert(fields@.skip(0) =~= fields@);
                assert(json_field(*v, key@) == lookup_fields(fields@, key@));
            }
            while i < fields.len()
                invariant
                    0 <= i <= fields@.len(),
                    lookup_fields(fields@, key@) == lookup_fields(fields@.skip(i as int), key@),
                decreases fields@.len() - i,
            {
                proof {
                    assert(fields@.skip(i as int).first() == fields@[i as int]);
                    assert(fields@.skip(i as int).drop_first() =~= fields@.skip(i + 1));
                }
                if str_eq(fields[i].0.as_str(), key) {
                    proof {
                        assert(fields@.skip(i as int).len() > 0);
                        assert(lookup_fields(fields@.skip(i as int), key@) == Some(
                            fields@[i as int].1,
                        ));
                    }
                    let f = &fields[i].1;
                    proof {
                        assert(*f == fields@[i as int].1);
                    }
                    return Some(f);
                }
                i += 1;
            }
            proof {
                assert(fields@.skip(fields@.len() as int) =~= Seq::<(String, JsonValue)>::empty());
            }
            None
        },
        _ => None,
    }
}

/// Reads the string member `key` of `v`, leniently.
pub fn get_str_field(v: &JsonValue, key: &str) -> (r: Option<String>)
    ensures
        r == field_str(*v, key@),
{
    match obj_field(v, key) {
        Some(JsonValue::Text(s)) => Some(s.clone()),
        _ => None,
    }
}

/// Reads the boolean member `key` of `v`, leniently.
pub fn get_bool_field(v: &JsonValue, key: &str) -> (r: Option<bool>)
    ensures
        r == field_bool(*v, key@),
{
    match obj_field(v, key) {
        Some(JsonValue::Bool(b)) => Some(*b),
        _ => None,
    }
}

/// Reads the integer member `key` of `v`, leniently.
pub fn get_int_field(v: &JsonValue, key: &str) -> (r: Option<i64>)
    ensures
        r == field_int(*v, key@),
{
    match obj_field(v, key) {
        Some(JsonValue::Int(i)) => Some(*i),
        _ => None,
    }
}

/// Reads the string-list member `key` of `v`, leniently: absent when any
/// element is not a string.
#[verifier::loop_isolation(false)]
pub fn get_str_list_field(v: &JsonValue, key: &str) -> (r: Option<Vec<String>>)
    ensures
        match r {
            Some(xs) => field_str_list(*v, key@) == Some(xs@),
            None => field_str_list(*v, key@) is None,
        },
{
    match obj_field(v, key) {
        Some(JsonValue::Arr(items)) => {
            let mut out: Vec<String> = Vec::new();
            let mut i: usize = 0;
            proof {
                assert(field_arr(*v, key@) == Some(items@));
                assert(items@.skip(0) =~= items@);
                if let Some(rest) = strings_of(items@) {
                    assert(out@ + rest =~= rest);
                }
            }
            while i < items.len()
                invariant
                    0 <= i <= items@.len(),
                    strings_of(items@) == match strings_of(items@.skip(i as int)) {
                        Some(rest) => Some(out@ + rest),
                        None => None::<Seq<String>>,
                    },
                decreases items@.len() - i,
            {
                proof {
                    assert(items@.skip(i as int).first() == items@[i as int]);
                    assert(items@.skip(i as int).drop_first() =~= items@.skip(i + 1));
                }
                match &items[i] {
                    JsonValue::Text(s) => {
                        let ghost prev = out@;
                        out.push(s.clone());
                        proof {
                            if let Some(rest) = strings_of(items@.skip(i + 1)) {
                                assert(prev + (seq![items@[i as int]->Text_0] + rest) =~= out@
                                    + rest);
                            }
                        }
                    },
                    _ => {
                        proof {
                            assert(items@.skip(i as int).len() > 0);
                            assert(strings_of(items@.skip(i as int)) is None);
                        }
                        return None;
                    },
                }
                i += 1;
            }
            proof {
                assert(items@.skip(items@.len() as int) =~= Seq::<JsonValue>::empty());
                assert(out@ + Seq::<String>::empty() =~= out@);
            }
            Some(out)
        },
        _ => None,
    }
}

} // verus!
