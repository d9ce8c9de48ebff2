//! Text and JSON primitives: substring search, decimal numerals, JSON string
//! literals and the members of a JSON object.
//!
//! What `serde_json` computes is named here by spec functions over the inputs
//! alone; the layouts built from those pieces are stated in the modules that
//! define them.

use vstd::prelude::*;

verus! {

/// `pat` occurs in `s` as a contiguous run of characters.
pub open spec fn has_substring(s: Seq<char>, pat: Seq<char>) -> bool {
    exists|i: int| 0 <= i && i + pat.len() <= s.len() && #[trigger] s.subrange(i, i + pat.len()) == pat
}

/// The ASCII digit for `d`, which is below ten.
pub open spec fn digit_char(d: nat) -> char {
    ((d % 10) + 48) as char
}

/// The decimal numeral of `n`, most significant digit first, no leading zeros.
pub open spec fn decimal(n: nat) -> Seq<char>
    decreases n,
{
    if n < 10 {
        seq![digit_char(n)]
    } else {
        decimal(n / 10).push(digit_char(n % 10))
    }
}

/// The JSON string literal that `serde_json` writes for `s`: quotes around it,
/// with its special characters escaped.
pub uninterp spec fn json_quoted(s: Seq<char>) -> Seq<char>;

/// The string that the JSON text `b` holds under `key`, when `b` parses as a
/// JSON object whose member `key` is a string.
pub uninterp spec fn json_str_member(b: Seq<u8>, key: Seq<char>) -> Option<Seq<char>>;

/// The number that the JSON text `b` holds under `key`, when `b` parses as a
/// JSON object whose member `key` is a non-negative integer that fits in `u64`.
pub uninterp spec fn json_u64_member(b: Seq<u8>, key: Seq<char>) -> Option<u64>;

/// Relies on `str::contains` with a `&str` pattern: true exactly when the
/// pattern occurs in `s`.
#[verifier::external_body]
pub(crate) fn str_contains(s: &str, pat: &str) -> (r: bool)
    ensures
        r == has_substring(s@, pat@),
{
    s.contains(pat)
}

/// Relies on `ToString::to_string` for `u64`, which writes the decimal numeral.
#[verifier::external_body]
pub(crate) fn decimal_string(n: u64) -> (r: String)
    ensures
        r@ == decimal(n as nat),
{
    n.to_string()
}

/// Relies on `serde_json::to_string` for a `str`: serializing a string into
/// an in-memory buffer writes only to a `Vec` and does not fail.
#[verifier::external_body]
pub(crate) fn quote_json(s: &str) -> (r: Option<String>)
    ensures
        r is Some,
        r->0@ == json_quoted(s@),
{
    serde_json::to_string(s).ok()
}

/// Relies on `serde_json::from_slice` into a `serde_json::Value` and on the
/// lookup of `key` in the object it yields: the member, when it is a string.
#[verifier::external_body]
pub(crate) fn json_str_field(raw: &[u8], key: &str) -> (r: Option<String>)
    ensures
        r is Some <==> json_str_member(raw@, key@) is Some,
        r is Some ==> r->0@ == json_str_member(raw@, key@)->0,
{
    match serde_json::from_slice::<serde_json::Value>(raw) {
        Ok(serde_json::Value::Object(members)) => match members.get(key) {
            Some(serde_json::Value::String(s)) => Some(s.clone()),
            _ => None,
        },
        _ => None,
    }
}

/// Relies on `serde_json::from_slice` into a `serde_json::Value`, on the
/// lookup of `key` in the object it yields, and on `serde_json::Number::as_u64`.
#[verifier::external_body]
pub(crate) fn json_u64_field(raw: &[u8], key: &str) -> (r: Option<u64>)
    ensures
        r == json_u64_member(raw@, key@),
{
    match serde_json::from_slice::<serde_json::Value>(raw) {
        Ok(serde_json::Value::Object(members)) => match members.get(key) {
            Some(serde_json::Value::Number(n)) => n.as_u64(),
            _ => None,
        },
        _ => None,
    }
}

/// Distinct numbers have distinct decimal numerals.
pub proof fn lemma_decimal_injective(n: nat, m: nat)
    requires
        decimal(n) == decimal(m),
    ensures
        n == m,
    decreases n,
{
    lemma_decimal_len(n);
    lemma_decimal_len(m);
    if n < 10 || m < 10 {
        if n >= 10 {
            lemma_decimal_len(n / 10);
        }
        if m >= 10 {
            lemma_decimal_len(m / 10);
        }
        assert(decimal(n).last() == decimal(m).last());
        assert(n < 10 && m < 10);
    } else {
        let pn = decimal(n / 10);
        let pm = decimal(m / 10);
        assert(decimal(n).drop_last() == pn);
        assert(decimal(m).drop_last() == pm);
        assert(decimal(n) == pn.push(digit_char(n % 10)));
        assert(decimal(m) == pm.push(digit_char(m % 10)));
        assert(decimal(n)[pn.len() as int] == digit_char(n % 10));
        assert(decimal(m)[pm.len() as int] == digit_char(m % 10));
        assert(pn.len() == pm.len());
        assert(digit_char(n % 10) == digit_char(m % 10));
        assert((n % 10) + 48 == (m % 10) + 48);
        assert(n % 10 == m % 10);
        lemma_decimal_injective(n / 10, m / 10);
    }
}

/// A numeral has at least one character, and all of them are digits.
pub proof fn lemma_decimal_len(n: nat)
    ensures
        decimal(n).len() >= 1,
        n >= 10 ==> decimal(n).len() >= 2,
        forall|i: int| 0 <= i < decimal(n).len() ==> '0' <= #[trigger] decimal(n)[i] <= '9',
    decreases n,
{
    if n >= 10 {
        lemma_decimal_len(n / 10);
    }
}

} // verus!
