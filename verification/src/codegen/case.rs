//! Identifier case conversion, done by the `heck` crate.

use vstd::prelude::*;
use heck::{ToSnakeCase, ToUpperCamelCase};

verus! {

/// What `heck`'s `to_snake_case` makes of a name.
pub uninterp spec fn snake_case(s: Seq<char>) -> Seq<char>;

/// What `heck`'s `to_upper_camel_case` makes of a name.
pub uninterp spec fn upper_camel_case(s: Seq<char>) -> Seq<char>;

/// Calls `heck::ToSnakeCase::to_snake_case`. Claimed: the result depends on
/// the characters of `s` alone (it is `snake_case` of them); nothing more is
/// stated of the word-splitting rules.
#[verifier::external_body]
pub(crate) fn to_snake_case(s: &str) -> (r: String)
    ensures
        r@ == snake_case(s@),
{
    s.to_snake_case()
}

/// Calls `heck::ToUpperCamelCase::to_upper_camel_case`. Claimed: the result
/// depends on the characters of `s` alone (it is `upper_camel_case` of
/// them); nothing more is stated of the word-splitting rules.
#[verifier::external_body]
pub(crate) fn to_upper_camel_case(s: &str) -> (r: String)
    ensures
        r@ == upper_camel_case(s@),
{
    s.to_upper_camel_case()
}

} // verus!
