//! Changing the case of identifiers, as the generated code's conventions ask.

use heck::{ToLowerCamelCase, ToSnakeCase, ToUpperCamelCase};
use vstd::prelude::*;

verus! {

/// What `heck`'s `to_lower_camel_case` makes of a string.
pub uninterp spec fn lower_camel_case(s: Seq<char>) -> Seq<char>;

/// What `heck`'s `to_upper_camel_case` makes of a string.
pub uninterp spec fn upper_camel_case(s: Seq<char>) -> Seq<char>;

/// What `heck`'s `to_snake_case` makes of a string.
pub uninterp spec fn snake_case(s: Seq<char>) -> Seq<char>;

/// `heck::ToSnakeCase::to_snake_case`: splits the string into words and joins
/// them lower-cased, with underscores between them. Its result depends on the
/// string alone, and is named, not stated.
#[verifier::external_body]
pub(crate) fn to_snake_case(s: &str) -> (res: String)
    ensures
        res@ == snake_case(s@),
{
    s.to_snake_case()
}

/// `heck::ToLowerCamelCase::to_lower_camel_case`: splits the string into words
/// and joins them with the first lower-cased and the rest capitalised. Its
/// result depends on the string alone, and is named, not stated.
#[verifier::external_body]
pub(crate) fn to_lower_camel_case(s: &str) -> (res: String)
    ensures
        res@ == lower_camel_case(s@),
{
    s.to_lower_camel_case()
}

/// `heck::ToUpperCamelCase::to_upper_camel_case`: splits the string into words
/// and joins them capitalised. Its result depends on the string alone, and is
/// named, not stated.
#[verifier::external_body]
pub(crate) fn to_upper_camel_case(s: &str) -> (res: String)
    ensures
        res@ == upper_camel_case(s@),
{
    s.to_upper_camel_case()
}

} // verus!
