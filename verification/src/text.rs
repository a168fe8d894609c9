use vstd::prelude::*;

verus! {

/// What `str::to_lowercase` returns for a given character sequence.
pub uninterp spec fn lower_of(s: Seq<char>) -> Seq<char>;

/// Relies on `str::to_lowercase`: the result depends on the input
/// characters alone, and it is empty exactly when the input is empty
/// (every input character maps to one or more output characters).
#[verifier::external_body]
pub(crate) fn lowercase(s: &str) -> (r: String)
    ensures
        r@ == lower_of(s@),
        (r@.len() == 0) <==> (s@.len() == 0),
{
    s.to_lowercase()
}

/// Relies on `str`'s `PartialEq`: two string slices compare equal
/// exactly when their character sequences are equal.
#[verifier::external_body]
pub(crate) fn str_eq(a: &str, b: &str) -> (r: bool)
    ensures
        r == (a@ == b@),
{
    a == b
}

} // verus!
