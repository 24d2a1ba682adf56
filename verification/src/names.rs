//! Derivation of identifiers: suffix appending and snake-case conversion.

use vstd::prelude::*;
use vstd::string::*;

verus! {

/// The snake_case form of a string, as heck computes it. The conversion
/// depends on the characters alone, so the result carries a name; nothing
/// more is assumed of it.
pub uninterp spec fn snake_of(s: Seq<char>) -> Seq<char>;

/// Relies on heck's `to_snake_case` for `str`: converts a string to
/// snake_case, lowercasing and inserting underscores at word boundaries.
#[verifier::external_body]
pub(crate) fn snake_case_str(s: &str) -> (r: String)
    ensures
        r@ == snake_of(s@),
{
    heck::ToSnakeCase::to_snake_case(s)
}

/// Compares a string against an expected token.
pub(crate) fn eq_str(a: &String, b: &str) -> (r: bool)
    ensures
        r == (a@ == b@),
{
    let expected: String = b.to_owned();
    a.eq(&expected)
}

/// Appends a suffix to an identifier, as in deriving `AccountController`
/// from `Account`.
pub fn append(base: &String, suffix: &str) -> (r: String)
    ensures
        r@ == base@ + suffix@,
{
    let mut out: String = base.clone();
    out.append(suffix);
    out
}

} // verus!
