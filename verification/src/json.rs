//! A plain model of decoded JSON documents.
//!
//! The upstream service embeds JSON blobs in its pages. Parsing the text
//! is left to `serde_json` behind a trusted boundary; everything the
//! library then does with a document works on the [`JsonValue`] tree,
//! whose nodes are plain values that contracts can speak about.
//! Numbers are kept as their decimal text: the shape logic never does
//! arithmetic on them, and the one counter the library needs is read
//! back with the verified [`parse_u16`].

use vstd::prelude::*;
use vstd::string::StrSliceExecFns;

verus! {

/// One decoded JSON document node. Object members keep the order in
/// which the parser hands them over; numbers keep their decimal text.
#[derive(Debug, PartialEq)]
pub enum JsonValue {
    Null,
    Bool(bool),
    Number(String),
    Str(String),
    Arr(Vec<JsonValue>),
    Obj(Vec<(String, JsonValue)>),
}

/// Errors of the decoding layer: either the text is not JSON at all,
/// or a required part of a document is missing or of the wrong kind.
#[derive(Debug, Clone, Copy, PartialEq, Eq, Structural)]
pub enum DecodeError {
    /// The text could not be parsed as a JSON document.
    Syntax,
    /// A required object member is absent.
    MissingField,
    /// A node is present but not of the kind the document calls for.
    WrongType,
    /// A numeric field does not hold a small non-negative integer.
    BadNumber,
}

#[verifier::external_type_specification]
#[verifier::external_body]
pub struct ExSerdeValue(serde_json::Value);

/// What parsing a given text yields. `serde_json`'s object maps are
/// ordered by key, so the whole tree is a function of the text alone.
pub uninterp spec fn json_doc(s: Seq<char>) -> Option<JsonValue>;

/// Relies on `serde_json::Value`: copies one parsed node into the
/// library's tree, arm by arm; numbers become their decimal text.
#[verifier::external_body]
fn json_tree(v: serde_json::Value) -> JsonValue {
    match v {
        serde_json::Value::Null => JsonValue::Null,
        serde_json::Value::Bool(b) => JsonValue::Bool(b),
        serde_json::Value::Number(n) => JsonValue::Number(n.to_string()),
        serde_json::Value::String(s) => JsonValue::Str(s),
        serde_json::Value::Array(a) => JsonValue::Arr(a.into_iter().map(json_tree).collect()),
        serde_json::Value::Object(m) => JsonValue::Obj(
            m.into_iter().map(|(k, w)| (k, json_tree(w))).collect(),
        ),
    }
}

/// Relies on `serde_json::from_str`: parses a complete JSON document,
/// or fails; the result depends on the text alone.
#[verifier::external_body]
pub(crate) fn parse_json(s: &str) -> (r: Option<JsonValue>)
    ensures
        r == json_doc(s@),
{
    match serde_json::from_str::<serde_json::Value>(s) {
        Ok(v) => Some(json_tree(v)),
        Err(_) => None,
    }
}

/// The first member of `es` named `key`, if any.
pub open spec fn json_key(es: Seq<(String, JsonValue)>, key: Seq<char>) -> Option<JsonValue>
    decreases es.len(),
{
    if es.len() == 0 {
        None
    } else if es[0].0@ == key {
        Some(es[0].1)
    } else {
        json_key(es.drop_first(), key)
    }
}

/// Looks a member up in an object's member list by name.
pub fn obj_field<'a>(es: &'a Vec<(String, JsonValue)>, key: &String) -> (r: Option<
    &'a JsonValue,
>)
    ensures
        match r {
            Some(v) => json_key(es@, key@) == Some(*v),
            None => json_key(es@, key@) is None,
        },
{
    let mut i: usize = 0;
    proof {
        assert(es@.skip(0) =~= es@);
    }
    while i < es.len()
        invariant
            i <= es@.len(),
            json_key(es@, key@) == json_key(es@.skip(i as int), key@),
        decreases es@.len() - i,
    {
        proof {
            assert(es@.skip(i as int)[0] == es@[i as int]);
        }
        if es[i].0 == *key {
            return Some(&es[i].1);
        }
        proof {
            assert(es@.skip(i as int).drop_first() =~= es@.skip(i + 1 as int));
        }
        i = i + 1;
    }
    proof {
        assert(es@.skip(i as int).len() == 0);
    }
    None
}

/// The value of a decimal digit string, most significant digit first.
/// Meaningful only when every character is a digit.
pub open spec fn dec_val(s: Seq<char>) -> int
    decreases s.len(),
{
    if s.len() == 0 {
        0
    } else {
        dec_val(s.drop_last()) * 10 + (s.last() as int - 48)
    }
}

/// Every character of `s` is a decimal digit.
pub open spec fn all_digits(s: Seq<char>) -> bool {
    forall|i: int| 0 <= i < s.len() ==> 48 <= #[trigger] s[i] as int <= 57
}

/// What a numeric field must look like to count as a small counter:
/// a non-empty all-digit string whose value fits in sixteen bits.
pub open spec fn parse_u16_spec(s: Seq<char>) -> Option<u16> {
    if s.len() > 0 && all_digits(s) && dec_val(s) <= 65535 {
        Some(dec_val(s) as u16)
    } else {
        None
    }
}

proof fn lemma_dec_val_bounds(s: Seq<char>)
    requires
        all_digits(s),
    ensures
        0 <= dec_val(s),
        s.len() > 0 ==> dec_val(s.drop_last()) <= dec_val(s),
    decreases s.len(),
{
    if s.len() > 0 {
        lemma_dec_val_bounds(s.drop_last());
    }
}

/// Once a digit prefix exceeds the bound, every longer prefix does too.
proof fn lemma_dec_val_monotone(s: Seq<char>, i: int, j: int)
    requires
        all_digits(s),
        0 <= i <= j <= s.len(),
    ensures
        dec_val(s.take(i)) <= dec_val(s.take(j)),
    decreases j - i,
{
    if i < j {
        lemma_dec_val_monotone(s, i, j - 1);
        assert(s.take(j).drop_last() =~= s.take(j - 1));
        assert(all_digits(s.take(j))) by {
            assert(forall|k: int|
                0 <= k < j ==> #[trigger] s.take(j)[k] as int == s[k] as int);
        }
        lemma_dec_val_bounds(s.take(j));
    }
}

/// Reads a small non-negative decimal integer, exactly when the whole
/// text is a digit string whose value fits in sixteen bits.
pub fn parse_u16(s: &str) -> (r: Option<u16>)
    ensures
        r == parse_u16_spec(s@),
{
    let n = s.unicode_len();
    if n == 0 {
        return None;
    }
    let mut acc: u32 = 0;
    let mut i: usize = 0;
    while i < n
        invariant
            n == s@.len(),
            0 < n,
            i <= n,
            all_digits(s@.take(i as int)),
            acc == dec_val(s@.take(i as int)),
            acc <= 65535,
        decreases n - i,
    {
        let c = s.get_char(i);
        let d = c as u32;
        if d < 48 || d > 57 {
            proof {
                assert(!all_digits(s@));
            }
            return None;
        }
        proof {
            assert(s@.take(i + 1 as int).drop_last() =~= s@.take(i as int));
            assert(s@.take(i + 1 as int).last() == s@[i as int]);
        }
        acc = acc * 10 + (d - 48);
        i = i + 1;
        if acc > 65535 {
            proof {
                if all_digits(s@) {
                    lemma_dec_val_monotone(s@, i as int, n as int);
                    assert(s@.take(n as int) =~= s@);
                }
            }
            return None;
        }
    }
    proof {
        assert(s@.take(n as int) =~= s@);
    }
    Some(acc as u16)
}

} // verus!
