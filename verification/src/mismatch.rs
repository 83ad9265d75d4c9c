//! How a JSON value that does not have the shape a typed reader expects is
//! described: the wording of the reasons given for a refused request or
//! refused `tools/call` parameters.

use vstd::prelude::*;

use crate::json::{decimal, decimal_text, Json, JsonValue};

verus! {

/// The text that `Debug` of `str` writes for `s`: the string in double quotes,
/// with quotes, backslashes and characters that do not print escaped.
pub uninterp spec fn debug_text(s: Seq<char>) -> Seq<char>;

/// `s` quoted as `Debug` of `str` writes it.
///
/// Calls `format!("{:?}", s)`. The contract claims that the text is a function
/// of the string alone.
#[verifier::external_body]
fn debug_quote(s: &str) -> (r: String)
    ensures
        r@ == debug_text(s@),
{
    format!("{:?}", s)
}

/// Whether the text of a number is that of a floating-point number: it holds a
/// decimal point or an exponent. The text of an integer is digits alone, with
/// a leading `-` when it is negative.
pub open spec fn is_float_text(t: Seq<char>) -> bool {
    exists|i: int| 0 <= i < t.len() && (t[i] == '.' || t[i] == 'e' || t[i] == 'E')
}

/// How a value that was not expected is named in a reason.
pub open spec fn unexpected_text(j: Json) -> Seq<char> {
    match j {
        Json::Null => "null"@,
        Json::Bool(b) => if b {
            "boolean `true`"@
        } else {
            "boolean `false`"@
        },
        Json::Number(t) => if is_float_text(t) {
            "floating point `"@ + t + "`"@
        } else {
            "integer `"@ + t + "`"@
        },
        Json::Str(s) => "string "@ + debug_text(s),
        Json::Array(_) => "sequence"@,
        Json::Object(_) => "map"@,
    }
}

/// The reason given for a value of the wrong type where `expected` was wanted.
pub open spec fn invalid_type(found: Json, expected: Seq<char>) -> Seq<char> {
    "invalid type: "@ + unexpected_text(found) + ", expected "@ + expected
}

/// The reason given for a sequence of the wrong length `len` where `expected`
/// was wanted.
pub open spec fn invalid_length(len: nat, expected: Seq<char>) -> Seq<char> {
    "invalid length "@ + decimal(len) + ", expected "@ + expected
}

/// The reason given for an object without the member `field`.
pub open spec fn missing_field(field: Seq<char>) -> Seq<char> {
    "missing field `"@ + field + "`"@
}

/// Whether the text of a number holds a decimal point or an exponent.
fn has_float_mark(t: &str) -> (r: bool)
    ensures
        r == is_float_text(t@),
{
    let n = t.unicode_len();
    let mut i: usize = 0;
    while i < n
        invariant
            n == t@.len(),
            i <= n,
            forall|k: int| 0 <= k < i ==> !(t@[k] == '.' || t@[k] == 'e' || t@[k] == 'E'),
        decreases n - i,
    {
        let c = t.get_char(i);
        if c == '.' || c == 'e' || c == 'E' {
            return true;
        }
        i = i + 1;
    }
    false
}

/// How `v` is named in a reason.
pub fn unexpected_description(v: &JsonValue) -> (r: String)
    ensures
        r@ == unexpected_text(v@),
{
    match v {
        JsonValue::Null => String::from_str("null"),
        JsonValue::Bool(b) => if *b {
            String::from_str("boolean `true`")
        } else {
            String::from_str("boolean `false`")
        },
        JsonValue::Number(n) => {
            let t = n.as_text();
            let mut r = if has_float_mark(t) {
                String::from_str("floating point `")
            } else {
                String::from_str("integer `")
            };
            r.append(t);
            r.append("`");
            r
        },
        JsonValue::String(s) => {
            let mut r = String::from_str("string ");
            r.append(debug_quote(s.as_str()).as_str());
            r
        },
        JsonValue::Array(_) => String::from_str("sequence"),
        JsonValue::Object(_) => String::from_str("map"),
    }
}

/// The reason given for `found` where `expected` was wanted.
pub fn invalid_type_reason(found: &JsonValue, expected: &str) -> (r: String)
    ensures
        r@ == invalid_type(found@, expected@),
{
    let mut r = String::from_str("invalid type: ");
    r.append(unexpected_description(found).as_str());
    r.append(", expected ");
    r.append(expected);
    r
}

/// The reason given for a sequence of length `len` where `expected` was
/// wanted.
pub fn invalid_length_reason(len: usize, expected: &str) -> (r: String)
    ensures
        r@ == invalid_length(len as nat, expected@),
{
    let mut r = String::from_str("invalid length ");
    r.append(decimal_text(len as u64).as_str());
    r.append(", expected ");
    r.append(expected);
    r
}

/// The reason given for an object without the member `field`.
pub fn missing_field_reason(field: &str) -> (r: String)
    ensures
        r@ == missing_field(field@),
{
    let mut r = String::from_str("missing field `");
    r.append(field);
    r.append("`");
    r
}

} // verus!
