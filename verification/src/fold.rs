//! Case folding of query tokens.

use vstd::prelude::*;

verus! {

/// The case-folded (lower-case) form of a character sequence. The full
/// Unicode lower-case mapping is not restated here; it is a function of the
/// characters alone.
pub uninterp spec fn lower_of(s: Seq<char>) -> Seq<char>;

/// Relies on str::to_lowercase: the lower-case form of a string, a function
/// of its characters alone; the empty string stays empty.
#[verifier::external_body]
pub(crate) fn to_lower(s: &str) -> (lower: String)
    ensures
        lower@ == lower_of(s@),
        s@.len() == 0 ==> lower@.len() == 0,
{
    s.to_lowercase()
}

} // verus!
