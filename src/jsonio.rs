//! Moving values between the library's `Value` and the json crate's
//! document type, which reads and writes JSON text.
use vstd::prelude::*;
use crate::value::{
    Field, Number, Value, kept, lemma_kept_fields, lemma_kept_seq, lemma_same_fields,
    lemma_same_seq, same,
};

verus! {

#[verifier::external_type_specification]
#[verifier::external_body]
pub struct ExJsonValue(json::JsonValue);

/// The longest text, in characters, that is handed to the json parser. It
/// lowers a 16-bit exponent once for each digit after a decimal point, and
/// overflows after 32768 of them.
pub const MAX_JSON_CHARS: usize = 32768;

/// The tree that a json crate document holds.
pub uninterp spec fn json_contents(d: json::JsonValue) -> Value;

/// The document that json::parse reads out of a text, `None` where the text
/// is not JSON.
pub uninterp spec fn json_document(raw: Seq<char>) -> Option<Value>;

/// The text that json::stringify writes for a tree.
pub uninterp spec fn json_text(v: Value) -> Seq<char>;

/// `r` describes one level of the tree `v`.
pub open spec fn parts_of(r: JsonParts, v: Value) -> bool {
    match r {
        JsonParts::Null => v == Value::Null,
        JsonParts::Bool(b) => v == Value::Bool(b),
        JsonParts::Number(n) => v == Value::Number(n),
        JsonParts::Str(s) => v matches Value::Str(t) && t@ == s@,
        JsonParts::Array(a) => v matches Value::Array(xs) && xs@.len() == a@.len() && forall|i: int|
            0 <= i < a@.len() ==> #[trigger] json_contents(a@[i]) == xs@[i],
        JsonParts::Object(es) => v matches Value::Object(fs) && fs@.len() == es@.len() && forall|
            i: int,
        |
            0 <= i < es@.len() ==> fs@[i].key@ == es@[i].0@ && #[trigger] json_contents(es@[i].1)
                == fs@[i].value,
    }
}

/// What `put_together` promises of the document it builds from `p`. A
/// number with a negative exponent loses the trailing zeros of its
/// mantissa, and an object keeps one entry per key, so those are not
/// pinned down.
pub open spec fn built_from(v: Value, p: JsonParts) -> bool {
    match p {
        JsonParts::Number(n) => n.exponent >= 0 || n.mantissa % 10 != 0 ==> v == Value::Number(n),
        JsonParts::Object(es) => (forall|i: int, j: int|
            0 <= i < j < es@.len() ==> #[trigger] es@[i].0@ != #[trigger] es@[j].0@) ==> parts_of(
            p,
            v,
        ),
        _ => parts_of(p, v),
    }
}

/// `d` agrees with `v` at its top level, and each element of an array
/// agrees with the element of `v` at the same place where that element is
/// a string, a flag, null, or a number without negative exponent.
pub open spec fn shallow_same(d: Value, v: Value) -> bool {
    &&& flat_same(d, v)
    &&& v matches Value::Array(items) ==> (d matches Value::Array(xs) && xs@.len() == items@.len()
        && forall|i: int| 0 <= i < items@.len() ==> #[trigger] flat_same(xs@[i], items@[i]))
}

/// `d` equals `v` where `v` is a leaf whose writing keeps it as it is.
pub open spec fn flat_same(d: Value, v: Value) -> bool {
    match v {
        Value::Str(s) => d matches Value::Str(t) && t@ == s@,
        Value::Number(n) => n.exponent >= 0 ==> d == v,
        Value::Null | Value::Bool(_) => d == v,
        _ => true,
    }
}

/// One level of a json crate document: its kind, with its children still in
/// the json crate's representation.
pub enum JsonParts {
    Null,
    Bool(bool),
    Number(Number),
    Str(String),
    Array(Vec<json::JsonValue>),
    Object(Vec<(String, json::JsonValue)>),
}

/// Relies on json::parse: reads a JSON document out of text, `None` where
/// the text is not one; the result depends on the text alone.
#[verifier::external_body]
fn parse_document(raw: &str) -> (r: Option<json::JsonValue>)
    requires
        raw@.len() <= MAX_JSON_CHARS,
    ensures
        r is None <==> json_document(raw@) is None,
        r matches Some(d) ==> json_document(raw@) == Some(json_contents(d)),
{
    json::parse(raw).ok()
}

/// Relies on json::stringify: writes a document as compact JSON text.
#[verifier::external_body]
fn stringify(v: json::JsonValue) -> (r: String)
    ensures
        r@ == json_text(json_contents(v)),
{
    json::stringify(v)
}

/// Relies on the variants of json::JsonValue and on
/// json::number::Number::as_parts and is_nan: takes a document apart one
/// level. A NaN number is read as null, which is how json writes it.
#[verifier::external_body]
fn take_apart(v: json::JsonValue) -> (r: JsonParts)
    ensures
        parts_of(r, json_contents(v)),
{
    match v {
        json::JsonValue::Null => JsonParts::Null,
        json::JsonValue::Short(s) => JsonParts::Str(s.as_str().to_owned()),
        json::JsonValue::String(s) => JsonParts::Str(s),
        json::JsonValue::Number(n) if n.is_nan() => JsonParts::Null,
        json::JsonValue::Number(n) => {
            let (positive, mantissa, exponent) = n.as_parts();
            JsonParts::Number(Number { positive, mantissa, exponent })
        },
        json::JsonValue::Boolean(b) => JsonParts::Bool(b),
        json::JsonValue::Object(o) => JsonParts::Object(
            o.iter().map(|(k, v)| (k.to_owned(), v.clone())).collect(),
        ),
        json::JsonValue::Array(a) => JsonParts::Array(a),
    }
}

/// Relies on the variants of json::JsonValue, on
/// json::number::Number::from_parts and on json::object::Object's
/// FromIterator: builds a document one level.
#[verifier::external_body]
fn put_together(p: JsonParts) -> (r: json::JsonValue)
    ensures
        built_from(json_contents(r), p),
{
    match p {
        JsonParts::Null => json::JsonValue::Null,
        JsonParts::Bool(b) => json::JsonValue::Boolean(b),
        JsonParts::Number(n) => json::JsonValue::Number(
            json::number::Number::from_parts(n.positive, n.mantissa, n.exponent),
        ),
        JsonParts::Str(s) => json::JsonValue::String(s),
        JsonParts::Array(a) => json::JsonValue::Array(a),
        JsonParts::Object(o) => json::JsonValue::Object(o.into_iter().collect()),
    }
}

/// Reverses the order of a vector, by moving its items.
fn reversed<T>(v: Vec<T>) -> (r: Vec<T>)
    ensures
        r@ == v@.reverse(),
{
    let mut rest = v;
    let mut out: Vec<T> = Vec::new();
    let ghost all = rest@;
    while rest.len() > 0
        invariant
            rest@.len() <= all.len(),
            rest@ == all.subrange(0, rest@.len() as int),
            out@ == all.subrange(rest@.len() as int, all.len() as int).reverse(),
        decreases rest@.len(),
    {
        let x = rest.pop().unwrap();
        assert(x == all[rest@.len() as int]);
        out.push(x);
        assert(out@ =~= all.subrange(rest@.len() as int, all.len() as int).reverse());
    }
    assert(out@ =~= all.reverse());
    out
}

/// Converts a json crate document into a `Value`.
fn from_json(v: json::JsonValue) -> (r: Value)
    ensures
        same(r, json_contents(v)),
    decreases json_contents(v),
{
    let ghost whole = json_contents(v);
    match take_apart(v) {
        JsonParts::Null => Value::Null,
        JsonParts::Bool(b) => Value::Bool(b),
        JsonParts::Number(n) => Value::Number(n),
        JsonParts::Str(s) => Value::Str(s),
        JsonParts::Array(items) => {
            let ghost xs = whole->Array_0;
            let ghost all = items@;
            let mut rest = reversed(items);
            let mut out: Vec<Value> = Vec::new();
            while rest.len() > 0
                invariant
                    whole == json_contents(v),
                    whole == Value::Array(xs),
                    xs@.len() == all.len(),
                    forall|i: int| 0 <= i < all.len() ==> #[trigger] json_contents(all[i]) == xs@[i],
                    out@.len() + rest@.len() == all.len(),
                    forall|i: int| 0 <= i < rest@.len() ==> rest@[i] == all[all.len() - 1 - i],
                    forall|i: int| 0 <= i < out@.len() ==> #[trigger] same(out@[i], xs@[i]),
                decreases rest@.len(),
            {
                let ghost k = out@.len() as int;
                let x = rest.pop().unwrap();
                assert(x == all[k]);
                assert(json_contents(x) == xs@[k]);
                proof {
                    vstd::std_specs::vec::axiom_vec_index_decreases(xs, k);
                    assert(decreases_to!(whole => whole->Array_0));
                    assert(decreases_to!(whole => xs@[k]));
                }
                let y = from_json(x);
                out.push(y);
                assert(same(out@[k], xs@[k]));
            }
            assert(out@.len() == xs@.len());
            proof {
                lemma_same_seq(out@, xs@);
            }
            let r = Value::Array(out);
            r
        },
        JsonParts::Object(entries) => {
            let ghost fs = whole->Object_0;
            let ghost all = entries@;
            let mut rest = reversed(entries);
            let mut out: Vec<Field> = Vec::new();
            while rest.len() > 0
                invariant
                    whole == json_contents(v),
                    whole == Value::Object(fs),
                    fs@.len() == all.len(),
                    forall|i: int|
                        0 <= i < all.len() ==> fs@[i].key@ == all[i].0@ && #[trigger] json_contents(
                            all[i].1,
                        ) == fs@[i].value,
                    out@.len() + rest@.len() == all.len(),
                    forall|i: int| 0 <= i < rest@.len() ==> rest@[i] == all[all.len() - 1 - i],
                    forall|i: int| 0 <= i < out@.len() ==> #[trigger] out@[i].key@ == fs@[i].key@,
                    forall|i: int|
                        0 <= i < out@.len() ==> #[trigger] same(out@[i].value, fs@[i].value),
                decreases rest@.len(),
            {
                let ghost k = out@.len() as int;
                let (key, x) = rest.pop().unwrap();
                assert((key, x) == all[k]);
                assert(key@ == fs@[k].key@);
                assert(json_contents(x) == fs@[k].value);
                proof {
                    vstd::std_specs::vec::axiom_vec_index_decreases(fs, k);
                    assert(decreases_to!(whole => whole->Object_0));
                    assert(decreases_to!(fs@[k] => fs@[k].value));
                    assert(decreases_to!(whole => fs@[k].value));
                }
                let ghost cx = json_contents(x);
                let value = from_json(x);
                assert(same(value, cx));
                assert(cx == fs@[k].value);
                let ghost before = out@;
                let ghost key_chars = key@;
                out.push(Field { key, value });
                assert forall|i: int| 0 <= i < out@.len() implies #[trigger] out@[i].key@
                    == fs@[i].key@ && same(out@[i].value, fs@[i].value) by {
                    if i < k {
                        assert(out@[i] == before[i]);
                        assert(before[i].key@ == fs@[i].key@);
                        assert(same(before[i].value, fs@[i].value));
                    } else {
                        assert(out@[i].key@ == key_chars);
                    }
                }
            }
            assert(out@.len() == fs@.len());
            proof {
                lemma_same_fields(out@, fs@);
            }
            let r = Value::Object(out);
            r
        },
    }
}

/// Converts a `Value` into a json crate document.
fn to_json(v: &Value) -> (r: json::JsonValue)
    ensures
        shallow_same(json_contents(r), *v),
        kept(*v) ==> same(json_contents(r), *v),
    decreases v,
{
    match v {
        Value::Null => put_together(JsonParts::Null),
        Value::Bool(b) => put_together(JsonParts::Bool(*b)),
        Value::Number(n) => put_together(JsonParts::Number(*n)),
        Value::Str(s) => put_together(JsonParts::Str(s.clone())),
        Value::Array(items) => {
            proof {
                if kept(*v) {
                    lemma_kept_seq(items@);
                }
            }
            let mut out: Vec<json::JsonValue> = Vec::new();
            let mut i: usize = 0;
            while i < items.len()
                invariant
                    *v == Value::Array(*items),
                    kept(*v) ==> forall|j: int| 0 <= j < items@.len() ==> #[trigger] kept(items@[j]),
                    out@.len() == i,
                    i <= items@.len(),
                    forall|j: int|
                        0 <= j < i ==> #[trigger] flat_same(json_contents(out@[j]), items@[j]),
                    kept(*v) ==> forall|j: int|
                        0 <= j < i ==> #[trigger] same(json_contents(out@[j]), items@[j]),
                decreases items.len() - i,
            {
                proof {
                    vstd::std_specs::vec::axiom_vec_index_decreases(*items, i as int);
                    assert(decreases_to!(*v => (*v)->Array_0));
                    assert(decreases_to!(*v => items@[i as int]));
                }
                let x = to_json(&items[i]);
                out.push(x);
                i = i + 1;
            }
            let ghost outs = out@;
            let r = put_together(JsonParts::Array(out));
            proof {
                if kept(*v) {
                    let ys = json_contents(r)->Array_0@;
                    assert forall|j: int| 0 <= j < ys.len() implies #[trigger] same(
                        ys[j],
                        items@[j],
                    ) by {
                        assert(json_contents(outs[j]) == ys[j]);
                        assert(same(json_contents(outs[j]), items@[j]));
                    }
                    lemma_same_seq(ys, items@);
                }
            }
            assert forall|j: int| 0 <= j < items@.len() implies #[trigger] flat_same(
                json_contents(r)->Array_0@[j],
                items@[j],
            ) by {
                assert(json_contents(outs[j]) == json_contents(r)->Array_0@[j]);
            }
            r
        },
        Value::Object(fields) => {
            proof {
                if kept(*v) {
                    lemma_kept_fields(fields@);
                }
            }
            let mut out: Vec<(String, json::JsonValue)> = Vec::new();
            let mut i: usize = 0;
            while i < fields.len()
                invariant
                    *v == Value::Object(*fields),
                    out@.len() == i,
                    i <= fields@.len(),
                    kept(*v) ==> forall|j: int|
                        0 <= j < fields@.len() ==> #[trigger] kept(fields@[j].value),
                    forall|j: int| 0 <= j < i ==> #[trigger] out@[j].0@ == fields@[j].key@,
                    kept(*v) ==> forall|j: int|
                        0 <= j < i ==> #[trigger] same(json_contents(out@[j].1), fields@[j].value),
                decreases fields.len() - i,
            {
                proof {
                    vstd::std_specs::vec::axiom_vec_index_decreases(*fields, i as int);
                    assert(decreases_to!(*v => (*v)->Object_0));
                    assert(decreases_to!(*v => fields@[i as int].value));
                }
                let key = fields[i].key.clone();
                let x = to_json(&fields[i].value);
                out.push((key, x));
                i = i + 1;
            }
            let ghost outs = out@;
            proof {
                if kept(*v) {
                    assert forall|a: int, b: int| 0 <= a < b < outs.len() implies #[trigger] outs[a].0@
                        != #[trigger] outs[b].0@ by {
                        assert(outs[a].0@ == fields@[a].key@);
                        assert(outs[b].0@ == fields@[b].key@);
                    }
                }
            }
            let r = put_together(JsonParts::Object(out));
            proof {
                if kept(*v) {
                    let gs = json_contents(r)->Object_0@;
                    assert forall|j: int| 0 <= j < gs.len() implies #[trigger] same(
                        gs[j].value,
                        fields@[j].value,
                    ) by {
                        assert(json_contents(outs[j].1) == gs[j].value);
                        assert(same(json_contents(outs[j].1), fields@[j].value));
                    }
                    assert forall|j: int| 0 <= j < gs.len() implies #[trigger] gs[j].key@
                        == fields@[j].key@ by {
                        assert(json_contents(outs[j].1) == gs[j].value);
                        assert(outs[j].0@ == fields@[j].key@);
                    }
                    lemma_same_fields(gs, fields@);
                }
            }
            r
        },
    }
}

/// Reads JSON text into a `Value`; `None` where the text is not a JSON
/// document.
pub fn read_json(raw: &str) -> (r: Option<Value>)
    requires
        raw@.len() <= MAX_JSON_CHARS,
    ensures
        r is None <==> json_document(raw@) is None,
        r matches Some(x) ==> same(x, json_document(raw@)->Some_0),
{
    match parse_document(raw) {
        Some(doc) => Some(from_json(doc)),
        None => None,
    }
}

/// Writes a `Value` as compact JSON text: the text that json writes for a
/// tree that agrees with `v` as `shallow_same` says, and is the same tree
/// where json stores `v` as it stands.
pub fn write_json(v: &Value) -> (r: String)
    ensures
        exists|d: Value| #[trigger] shallow_same(d, *v) && (kept(*v) ==> same(d, *v)) && r@
            == json_text(d),
{
    let doc = to_json(v);
    let r = stringify(doc);
    assert(shallow_same(json_contents(doc), *v));
    r
}

} // verus!
