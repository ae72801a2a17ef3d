//! Field rules that outbound payloads must meet before they are sent.
use vstd::prelude::*;
use vstd::string::*;

verus! {

/// A rule that a field of an outbound payload must meet.
#[derive(Clone, Copy, Debug, PartialEq, Eq, Structural)]
pub enum Rule {
    /// Exactly this many characters.
    Length { equal: u64 },
    /// At least this many characters.
    MinLength { min: u64 },
    /// A well-formed absolute URL.
    Url,
    /// A non-negative whole number in decimal digits.
    Decimal,
}

/// The first rule that a payload breaks, and the field that breaks it.
#[derive(Clone, Debug)]
pub struct ValidationError {
    pub field: String,
    pub rule: Rule,
}

/// `s` parses as a URL.
pub uninterp spec fn is_url(s: Seq<char>) -> bool;

/// Whether `len` characters meet a length rule: `equal`, when given,
/// decides alone; otherwise the bounds that are given.
pub open spec fn length_ok(len: nat, min: Option<u64>, max: Option<u64>, equal: Option<u64>) -> bool {
    match equal {
        Some(e) => len == e,
        None => (match min {
            Some(m) => len >= m,
            None => true,
        }) && (match max {
            Some(m) => len <= m,
            None => true,
        }),
    }
}

/// Relies on validator::validate_length, which on a `String` counts its
/// characters.
#[verifier::external_body]
pub(crate) fn length_holds(s: &String, min: Option<u64>, max: Option<u64>, equal: Option<u64>) -> (r:
    bool)
    ensures
        r == length_ok(s@.len(), min, max, equal),
{
    validator::validate_length(s, min, max, equal)
}

/// Relies on validator::validate_url, which asks whether `url::Url::parse`
/// accepts the text.
#[verifier::external_body]
pub(crate) fn url_parses(s: &str) -> (r: bool)
    ensures
        r == is_url(s@),
{
    validator::validate_url(s)
}

/// `s` is a non-empty run of decimal digits.
pub open spec fn is_decimal(s: Seq<char>) -> bool {
    s.len() >= 1 && forall|i: int| 0 <= i < s.len() ==> '0' <= #[trigger] s[i] && s[i] <= '9'
}

pub fn decimal_holds(s: &str) -> (r: bool)
    ensures
        r == is_decimal(s@),
{
    let n = s.unicode_len();
    if n == 0 {
        return false;
    }
    let mut i: usize = 0;
    while i < n
        invariant
            n == s@.len(),
            0 <= i <= n,
            forall|j: int| 0 <= j < i ==> '0' <= #[trigger] s@[j] && s@[j] <= '9',
        decreases n - i,
    {
        let c = s.get_char(i);
        if !('0' <= c && c <= '9') {
            return false;
        }
        i = i + 1;
    }
    true
}

/// A payment amount must be a non-negative decimal number.
pub fn amount_rule(amount: &String) -> (r: Result<(), ValidationError>)
    ensures
        match r {
            Ok(_) => is_decimal(amount@),
            Err(e) => !is_decimal(amount@) && e.field@ == "amount"@ && e.rule == Rule::Decimal,
        },
{
    if decimal_holds(amount.as_str()) {
        Ok(())
    } else {
        Err(violation("amount", Rule::Decimal))
    }
}

/// The error for `field` breaking `rule`.
pub fn violation(field: &str, rule: Rule) -> (r: ValidationError)
    ensures
        r.field@ == field@,
        r.rule == rule,
{
    ValidationError { field: String::from_str(field), rule }
}

} // verus!
