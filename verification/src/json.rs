//! Plain-data JSON values and the accounting-field transform.
//!
//! The gateway relays JSON it does not interpret, except for one transform:
//! the accounting field (`usage`) is removed from every caller-visible value
//! while the untouched value is kept for the log. Values are held as plain
//! data; a number keeps its literal text. Parsing and printing are delegated
//! to serde_json behind trusted wrappers.

use vstd::prelude::*;
use vstd::string::StringExecFns;

verus! {

/// One JSON value, held as plain data. An object's fields stand in the
/// order the producer supplied them (for a parsed value, the order
/// serde_json yields); a number is kept as the text serde_json prints for
/// it.
#[derive(Debug, PartialEq)]
pub enum JsonValue {
    Null,
    Bool(bool),
    Num(String),
    Text(String),
    Arr(Vec<JsonValue>),
    Obj(Vec<(String, JsonValue)>),
}

/// The key of the accounting field that is stripped from caller-visible
/// output but retained for logging.
pub open spec fn accounting_key() -> Seq<char> {
    "usage"@
}

/// The entries of an object after every field named `key` is removed;
/// the remaining entries keep their order.
pub open spec fn entries_without(
    es: Seq<(String, JsonValue)>,
    key: Seq<char>,
) -> Seq<(String, JsonValue)>
    decreases es.len(),
{
    if es.len() == 0 {
        Seq::empty()
    } else {
        let rest = entries_without(es.drop_last(), key);
        if es.last().0@ == key {
            rest
        } else {
            rest.push(es.last())
        }
    }
}

/// `r` is `v` with the accounting field removed from its top level: for an
/// object, the same entries in the same order minus that field; any other
/// value is unchanged.
pub open spec fn is_stripped(v: JsonValue, r: JsonValue) -> bool {
    match v {
        JsonValue::Obj(es) => r matches JsonValue::Obj(rs) && rs@ == entries_without(
            es@,
            accounting_key(),
        ),
        _ => r == v,
    }
}

/// Whether `v` is an object with a field named `key`.
pub open spec fn obj_has_key(v: JsonValue, key: Seq<char>) -> bool {
    v matches JsonValue::Obj(es) && exists|i: int| 0 <= i < es@.len() && es@[i].0@ == key
}

/// Remove the accounting field from the top level of `v`. Consumes `v`; the
/// caller that also needs the unstripped value keeps its source text and
/// re-parses it, which yields the same value.
pub fn strip_accounting(v: JsonValue) -> (r: JsonValue)
    ensures
        is_stripped(v, r),
{
    match v {
        JsonValue::Obj(mut es) => {
            let ghost es0 = es@;
            let key: String = String::from_str("usage");
            let mut out: Vec<(String, JsonValue)> = Vec::new();
            let ghost k: int = 0;
            while es.len() > 0
                invariant
                    0 <= k <= es0.len(),
                    es@ == es0.skip(k),
                    out@ == entries_without(es0.take(k), key@),
                    key@ == accounting_key(),
                decreases es@.len(),
            {
                let e = es.remove(0);
                proof {
                    assert(es0.skip(k)[0] == es0[k]);
                    assert(es@ =~= es0.skip(k + 1));
                    assert(es0.take(k + 1).drop_last() =~= es0.take(k));
                    assert(es0.take(k + 1).last() == es0[k]);
                }
                if !(e.0 == key) {
                    out.push(e);
                }
                proof {
                    k = k + 1;
                }
            }
            proof {
                assert(es0.take(k) =~= es0);
            }
            JsonValue::Obj(out)
        },
        other => other,
    }
}

/// An object stripped of the accounting field never shows that field,
/// whatever the input held; a non-object is never an object afterwards.
pub proof fn lemma_stripped_no_accounting(v: JsonValue, r: JsonValue)
    requires
        is_stripped(v, r),
    ensures
        !obj_has_key(r, accounting_key()),
{
    match v {
        JsonValue::Obj(es) => {
            lemma_entries_without_absent(es@, accounting_key());
        },
        _ => {},
    }
}

/// No entry survives `entries_without` under the removed key.
pub proof fn lemma_entries_without_absent(es: Seq<(String, JsonValue)>, key: Seq<char>)
    ensures
        forall|i: int|
            0 <= i < entries_without(es, key).len() ==> entries_without(es, key)[i].0@ != key,
    decreases es.len(),
{
    if es.len() > 0 {
        lemma_entries_without_absent(es.drop_last(), key);
        let rest = entries_without(es.drop_last(), key);
        if es.last().0@ != key {
            assert forall|i: int|
                0 <= i < entries_without(es, key).len() implies entries_without(
                es,
                key,
            )[i].0@ != key by {
                if i < rest.len() {
                    assert(entries_without(es, key)[i] == rest[i]);
                } else {
                    assert(entries_without(es, key)[i] == es.last());
                }
            }
        }
    }
}

/// Every field under another key survives the strip, and nothing else
/// appears: membership in the stripped entries is membership in the source
/// entries under a key other than the removed one.
pub proof fn lemma_entries_without_membership(
    es: Seq<(String, JsonValue)>,
    key: Seq<char>,
    e: (String, JsonValue),
)
    ensures
        entries_without(es, key).contains(e) <==> (es.contains(e) && e.0@ != key),
    decreases es.len(),
{
    if es.len() > 0 {
        let dl = es.drop_last();
        let rest = entries_without(dl, key);
        lemma_entries_without_membership(dl, key, e);
        if dl.contains(e) {
            let i = choose|i: int| 0 <= i < dl.len() && dl[i] == e;
            assert(es[i] == e);
            assert(es.contains(e));
        }
        if es.last() == e {
            assert(es[es.len() - 1] == e);
            assert(es.contains(e));
        }
        if es.contains(e) && es.last() != e {
            let i = choose|i: int| 0 <= i < es.len() && es[i] == e;
            assert(dl[i] == e);
            assert(dl.contains(e));
        }
        if es.last().0@ != key {
            let pushed = rest.push(es.last());
            if rest.contains(e) {
                let i = choose|i: int| 0 <= i < rest.len() && rest[i] == e;
                assert(pushed[i] == e);
                assert(pushed.contains(e));
            }
            if es.last() == e {
                assert(pushed[rest.len() as int] == e);
                assert(pushed.contains(e));
            }
            if pushed.contains(e) {
                let i = choose|i: int| 0 <= i < pushed.len() && pushed[i] == e;
                if i < rest.len() {
                    assert(rest[i] == e);
                    assert(rest.contains(e));
                } else {
                    assert(es.last() == e);
                }
            }
        }
    }
}

/// A stripped object holds a field under a key other than the accounting key
/// exactly when the source object did.
pub proof fn lemma_strip_keeps_other_keys(v: JsonValue, r: JsonValue, key: Seq<char>)
    requires
        is_stripped(v, r),
        key != accounting_key(),
        v matches JsonValue::Obj(_),
    ensures
        obj_has_key(r, key) <==> obj_has_key(v, key),
{
    let es = v->Obj_0@;
    let rs = r->Obj_0@;
    if obj_has_key(v, key) {
        let i = choose|i: int| 0 <= i < es.len() && es[i].0@ == key;
        assert(es.contains(es[i]));
        lemma_entries_without_membership(es, accounting_key(), es[i]);
        assert(rs.contains(es[i]));
        let j = choose|j: int| 0 <= j < rs.len() && rs[j] == es[i];
        assert(rs[j].0@ == key);
    }
    if obj_has_key(r, key) {
        let i = choose|i: int| 0 <= i < rs.len() && rs[i].0@ == key;
        assert(rs.contains(rs[i]));
        lemma_entries_without_membership(es, accounting_key(), rs[i]);
        assert(es.contains(rs[i]));
        let j = choose|j: int| 0 <= j < es.len() && es[j] == rs[i];
        assert(es[j].0@ == key);
    }
}

/// What a text parses to, if it parses: the result of serde_json's reading,
/// carried over into `JsonValue` one variant for one. A function of the text
/// alone.
pub uninterp spec fn parsed_json(s: Seq<char>) -> Option<JsonValue>;

/// What a value prints to: the text serde_json writes for it. A function of
/// the value alone.
pub uninterp spec fn json_text(v: JsonValue) -> Seq<char>;

/// serde_json's value type, declared so the conversion helpers below can
/// mention it; the library never looks inside such a value.
#[verifier::external_type_specification]
#[verifier::external_body]
pub struct ExSerdeJsonValue(serde_json::Value);

/// Relies on serde_json's value enumeration: each variant is carried over
/// one for one, fields moved as they stand; a number keeps the text
/// serde_json prints for it.
#[verifier::external_body]
fn value_to_json(v: serde_json::Value) -> JsonValue {
    match v {
        serde_json::Value::Null => JsonValue::Null,
        serde_json::Value::Bool(b) => JsonValue::Bool(b),
        serde_json::Value::Number(n) => JsonValue::Num(n.to_string()),
        serde_json::Value::String(s) => JsonValue::Text(s),
        serde_json::Value::Array(a) => JsonValue::Arr(
            a.into_iter().map(value_to_json).collect(),
        ),
        serde_json::Value::Object(m) => JsonValue::Obj(
            m.into_iter().map(|(k, x)| (k, value_to_json(x))).collect(),
        ),
    }
}

/// Relies on serde_json's value constructors, one variant for one; a `Num`
/// whose text serde_json cannot read back as a number becomes null.
#[verifier::external_body]
fn json_to_value(v: &JsonValue) -> serde_json::Value {
    match v {
        JsonValue::Null => serde_json::Value::Null,
        JsonValue::Bool(b) => serde_json::Value::Bool(*b),
        JsonValue::Num(s) => match s.parse::<serde_json::Number>() {
            Ok(n) => serde_json::Value::Number(n),
            Err(_) => serde_json::Value::Null,
        },
        JsonValue::Text(s) => serde_json::Value::String(s.clone()),
        JsonValue::Arr(a) => serde_json::Value::Array(a.iter().map(json_to_value).collect()),
        JsonValue::Obj(es) => serde_json::Value::Object(
            es.iter().map(|(k, x)| (k.clone(), json_to_value(x))).collect(),
        ),
    }
}

/// Relies on serde_json::from_str: whether a text parses, and to what value,
/// depends on the text alone.
#[verifier::external_body]
pub(crate) fn parse_json(s: &str) -> (r: Option<JsonValue>)
    ensures
        r == parsed_json(s@),
{
    match serde_json::from_str::<serde_json::Value>(s) {
        Ok(v) => Some(value_to_json(v)),
        Err(_) => None,
    }
}

/// Relies on serde_json::to_string on the converted value: the printed text
/// depends on the value alone.
#[verifier::external_body]
pub(crate) fn render_json(v: &JsonValue) -> (r: String)
    ensures
        r@ == json_text(*v),
{
    match serde_json::to_string(&json_to_value(v)) {
        Ok(s) => s,
        Err(_) => String::new(),
    }
}

} // verus!
