//! The one piece of text handling the library does not define itself:
//! Unicode lowercasing, named abstractly and obtained from the standard
//! library.

use vstd::prelude::*;

verus! {

/// The Unicode lowercase mapping of a character sequence, as
/// `str::to_lowercase` computes it.
pub uninterp spec fn lower_of(s: Seq<char>) -> Seq<char>;

/// Relies on str::to_lowercase: the Unicode lowercase mapping of `s`,
/// a function of the characters alone.
#[verifier::external_body]
pub(crate) fn to_lowercase(s: &str) -> (r: String)
    ensures
        r@ == lower_of(s@),
{
    s.to_lowercase()
}

} // verus!
