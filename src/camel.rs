//! Camel-case conversion of identifiers, done by `convert_case`.

use convert_case::{Case, Casing};
use vstd::prelude::*;

verus! {

/// What `convert_case` makes of a string converted to camel case (`set_count`
/// becomes `setCount`). It depends on the characters of the string alone.
pub uninterp spec fn camel_of(s: Seq<char>) -> Seq<char>;

/// Relies on `convert_case::Casing::to_case` with `Case::Camel`: it splits the
/// text into words and joins them in camel case, a function of the text alone.
#[verifier::external_body]
pub(crate) fn to_camel_case(s: &str) -> (r: String)
    ensures
        r@ == camel_of(s@),
{
    s.to_case(Case::Camel)
}

} // verus!
