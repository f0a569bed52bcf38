//! A schema-less structured value, the payload carried by protocol frames.
use vstd::prelude::*;

verus! {

/// A decimal number as `mantissa * 10^exponent`, with its sign.
#[derive(Clone, Copy, Debug, PartialEq, Eq, Structural)]
pub struct Number {
    pub positive: bool,
    pub mantissa: u64,
    pub exponent: i16,
}

/// One entry of an object: a key and its value.
#[derive(Debug, PartialEq)]
pub struct Field {
    pub key: String,
    pub value: Value,
}

/// A structured value: the shape of a JSON document.
#[derive(Debug, PartialEq)]
pub enum Value {
    Null,
    Bool(bool),
    Number(Number),
    Str(String),
    Array(Vec<Value>),
    Object(Vec<Field>),
}

/// `v` is a string whose characters are `s`.
pub open spec fn is_text(v: Value, s: Seq<char>) -> bool {
    v matches Value::Str(t) && t@ == s
}

/// `v` is the non-negative integer `n`, written without fraction or exponent.
pub open spec fn is_count(v: Value, n: u64) -> bool {
    v == Value::Number(Number { positive: true, mantissa: n, exponent: 0 })
}

/// The index of the first field of `fields` whose key is `key`.
pub open spec fn find_key(fields: Seq<Field>, key: Seq<char>) -> Option<int>
    decreases fields.len(),
{
    if fields.len() == 0 {
        None
    } else if fields[0].key@ == key {
        Some(0)
    } else {
        match find_key(fields.drop_first(), key) {
            Some(i) => Some(i + 1),
            None => None,
        }
    }
}

/// The value of the first field of `fields` whose key is `key`.
pub open spec fn lookup(fields: Seq<Field>, key: Seq<char>) -> Option<Value> {
    match find_key(fields, key) {
        Some(i) => Some(fields[i].value),
        None => None,
    }
}

/// The value of field `key` of `v`, where `v` is an object that has one.
pub open spec fn field_of(v: Value, key: Seq<char>) -> Option<Value> {
    match v {
        Value::Object(fields) => lookup(fields@, key),
        _ => None,
    }
}

/// The first field with a given key is at the reported index.
pub proof fn lemma_find_key(fields: Seq<Field>, key: Seq<char>)
    ensures
        find_key(fields, key) matches Some(i) ==> 0 <= i < fields.len() && fields[i].key@ == key
            && forall|j: int| 0 <= j < i ==> fields[j].key@ != key,
        find_key(fields, key) is None ==> forall|j: int|
            0 <= j < fields.len() ==> fields[j].key@ != key,
    decreases fields.len(),
{
    if fields.len() > 0 {
        lemma_find_key(fields.drop_first(), key);
        assert forall|j: int| 1 <= j < fields.len() implies fields[j] == fields.drop_first()[j
            - 1] by {}
    }
}

/// Position of the first field whose key is `key`.
pub fn position(fields: &Vec<Field>, key: &str) -> (r: Option<usize>)
    ensures
        r matches Some(i) ==> i < fields.len() && find_key(fields@, key@) == Some(i as int),
        r is None ==> find_key(fields@, key@) is None,
{
    proof {
        lemma_find_key(fields@, key@);
    }
    let wanted = key.to_owned();
    let mut i: usize = 0;
    while i < fields.len()
        invariant
            i <= fields.len(),
            wanted@ == key@,
            forall|j: int| 0 <= j < i ==> fields@[j].key@ != key@,
            find_key(fields@, key@) matches Some(k) ==> 0 <= k < fields.len() && fields@[k].key@
                == key@ && forall|j: int| 0 <= j < k ==> fields@[j].key@ != key@,
            find_key(fields@, key@) is None ==> forall|j: int|
                0 <= j < fields.len() ==> fields@[j].key@ != key@,
        decreases fields.len() - i,
    {
        if fields[i].key == wanted {
            proof {
                if let Some(k) = find_key(fields@, key@) {
                    assert(k == i as int);
                }
            }
            return Some(i);
        }
        i = i + 1;
    }
    None
}

impl Value {
    /// A string value holding a copy of `s`.
    pub fn text(s: &str) -> (r: Value)
        ensures
            is_text(r, s@),
    {
        Value::Str(s.to_owned())
    }

    /// The non-negative integer `n`.
    pub fn count(n: u64) -> (r: Value)
        ensures
            is_count(r, n),
    {
        Value::Number(Number { positive: true, mantissa: n, exponent: 0 })
    }

    /// A copy of the string in field `key`, where this is an object whose
    /// field `key` is a string.
    pub fn get_text(&self, key: &str) -> (r: Option<String>)
        ensures
            r is Some <==> field_of(*self, key@) matches Some(Value::Str(_)),
            r matches Some(t) ==> field_of(*self, key@) == Some(Value::Str(t)),
    {
        match self {
            Value::Object(fields) => match position(fields, key) {
                Some(i) => match &fields[i].value {
                    Value::Str(t) => Some(t.clone()),
                    _ => None,
                },
                None => None,
            },
            _ => None,
        }
    }

    /// Moves out the value of the first field named `key`, if this is an
    /// object that has one.
    pub fn take_field(self, key: &str) -> (r: Option<Value>)
        ensures
            r == field_of(self, key@),
    {
        match self {
            Value::Object(mut fields) => {
                match position(&fields, key) {
                    Some(i) => Some(fields.remove(i).value),
                    None => None,
                }
            },
            _ => None,
        }
    }
}



pub open spec fn same(a: Value, b: Value) -> bool
    decreases a,
{
    match a {
        Value::Str(s) => b matches Value::Str(t) && s@ == t@,
        Value::Array(xs) => b matches Value::Array(ys) && same_seq(xs@, ys@),
        Value::Object(fs) => b matches Value::Object(gs) && fs@.len() == gs@.len() && (forall|i: int|
            0 <= i < fs@.len() ==> #[trigger] fs@[i].key@ == gs@[i].key@) && same_fields(fs@, gs@),
        _ => a == b,
    }
}

pub open spec fn same_seq(xs: Seq<Value>, ys: Seq<Value>) -> bool
    decreases xs,
{
    xs.len() == ys.len() && (xs.len() > 0 ==> same(xs[0], ys[0]) && same_seq(xs.drop_first(), ys.drop_first()))
}

pub open spec fn same_fields(xs: Seq<Field>, ys: Seq<Field>) -> bool
    decreases xs,
{
    xs.len() == ys.len() && (xs.len() > 0 ==> same(xs[0].value, ys[0].value) && same_fields(
        xs.drop_first(),
        ys.drop_first(),
    ))
}

/// Elementwise sameness of two sequences of trees is `same_seq`.
pub proof fn lemma_same_seq(xs: Seq<Value>, ys: Seq<Value>)
    ensures
        same_seq(xs, ys) <==> (xs.len() == ys.len() && forall|i: int|
            0 <= i < xs.len() ==> #[trigger] same(xs[i], ys[i])),
    decreases xs.len(),
{
    if xs.len() > 0 && xs.len() == ys.len() {
        lemma_same_seq(xs.drop_first(), ys.drop_first());
        assert(same_seq(xs, ys) == (same(xs[0], ys[0]) && same_seq(xs.drop_first(), ys.drop_first())));
        assert forall|i: int| 1 <= i < xs.len() implies xs.drop_first()[i - 1] == xs[i]
            && ys.drop_first()[i - 1] == ys[i] by {}
        if forall|i: int| 0 <= i < xs.len() ==> #[trigger] same(xs[i], ys[i]) {
            assert forall|i: int| 0 <= i < xs.len() - 1 implies #[trigger] same(
                xs.drop_first()[i],
                ys.drop_first()[i],
            ) by {
                assert(xs.drop_first()[i] == xs[i + 1] && ys.drop_first()[i] == ys[i + 1]);
                assert(same(xs[i + 1], ys[i + 1]));
            }
        }
        if same_seq(xs, ys) {
            assert forall|i: int| 0 <= i < xs.len() implies #[trigger] same(xs[i], ys[i]) by {
                if i > 0 {
                    assert(xs.drop_first()[i - 1] == xs[i] && ys.drop_first()[i - 1] == ys[i]);
                    assert(same(xs.drop_first()[i - 1], ys.drop_first()[i - 1]));
                }
            }
        }
    }
}

/// Two sequences of fields whose values are the same, place by place, are
/// `same_fields`.
pub proof fn lemma_same_fields(xs: Seq<Field>, ys: Seq<Field>)
    requires
        xs.len() == ys.len(),
        forall|i: int| 0 <= i < xs.len() ==> #[trigger] same(xs[i].value, ys[i].value),
    ensures
        same_fields(xs, ys),
    decreases xs.len(),
{
    if xs.len() > 0 {
        assert forall|i: int| 0 <= i < xs.len() - 1 implies #[trigger] same(
            xs.drop_first()[i].value,
            ys.drop_first()[i].value,
        ) by {
            assert(xs.drop_first()[i] == xs[i + 1] && ys.drop_first()[i] == ys[i + 1]);
            assert(same(xs[i + 1].value, ys[i + 1].value));
        }
        lemma_same_fields(xs.drop_first(), ys.drop_first());
        assert(same(xs[0].value, ys[0].value));
    }
}

/// `v` is written by json as it stands: every number keeps its parts
/// (no negative exponent with a mantissa ending in 0), and no object
/// repeats a key.
pub open spec fn kept(v: Value) -> bool
    decreases v,
{
    match v {
        Value::Number(n) => n.exponent >= 0 || n.mantissa % 10 != 0,
        Value::Array(xs) => kept_seq(xs@),
        Value::Object(fs) => (forall|i: int, j: int|
            0 <= i < j < fs@.len() ==> #[trigger] fs@[i].key@ != #[trigger] fs@[j].key@)
            && kept_fields(fs@),
        _ => true,
    }
}

pub open spec fn kept_seq(xs: Seq<Value>) -> bool
    decreases xs,
{
    xs.len() > 0 ==> kept(xs[0]) && kept_seq(xs.drop_first())
}

pub open spec fn kept_fields(fs: Seq<Field>) -> bool
    decreases fs,
{
    fs.len() > 0 ==> kept(fs[0].value) && kept_fields(fs.drop_first())
}

/// Every element of a `kept_seq` sequence is `kept`.
pub proof fn lemma_kept_seq(xs: Seq<Value>)
    requires
        kept_seq(xs),
    ensures
        forall|i: int| 0 <= i < xs.len() ==> #[trigger] kept(xs[i]),
    decreases xs.len(),
{
    if xs.len() > 0 {
        lemma_kept_seq(xs.drop_first());
        assert forall|i: int| 0 <= i < xs.len() implies #[trigger] kept(xs[i]) by {
            if i > 0 {
                assert(xs.drop_first()[i - 1] == xs[i]);
            }
        }
    }
}

/// Every value of a `kept_fields` sequence is `kept`.
pub proof fn lemma_kept_fields(fs: Seq<Field>)
    requires
        kept_fields(fs),
    ensures
        forall|i: int| 0 <= i < fs.len() ==> #[trigger] kept(fs[i].value),
    decreases fs.len(),
{
    if fs.len() > 0 {
        lemma_kept_fields(fs.drop_first());
        assert forall|i: int| 0 <= i < fs.len() implies #[trigger] kept(fs[i].value) by {
            if i > 0 {
                assert(fs.drop_first()[i - 1] == fs[i]);
            }
        }
    }
}

/// A sequence whose elements are all `kept` is `kept_seq`.
pub proof fn lemma_kept_seq_from(xs: Seq<Value>)
    requires
        forall|i: int| 0 <= i < xs.len() ==> #[trigger] kept(xs[i]),
    ensures
        kept_seq(xs),
    decreases xs.len(),
{
    if xs.len() > 0 {
        assert forall|i: int| 0 <= i < xs.len() - 1 implies #[trigger] kept(xs.drop_first()[i]) by {
            assert(xs.drop_first()[i] == xs[i + 1]);
        }
        lemma_kept_seq_from(xs.drop_first());
        assert(kept(xs[0]));
    }
}

} // verus!
