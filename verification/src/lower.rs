use vstd::prelude::*;

verus! {

/// The lowercase form of a character sequence, as the standard library's
/// full-string lowercase conversion produces it. The mapping itself is left
/// unspecified: it depends on the characters alone, and contracts refer to
/// it by this name.
pub uninterp spec fn lower_of(s: Seq<char>) -> Seq<char>;

/// Relies on `str::to_lowercase`: its result is determined by the input's
/// characters alone, and is named `lower_of` in contracts.
#[verifier::external_body]
pub(crate) fn lowercase(s: &str) -> (r: String)
    ensures
        r@ == lower_of(s@),
{
    s.to_lowercase()
}

} // verus!
