use vstd::prelude::*;

verus! {

/// Text equality of two string slices.
///
/// Trusted: calls `<str as PartialEq>::eq`, which std documents as comparing
/// the two strings character by character; the contract says the result is
/// the equality of their character sequences.
#[verifier::external_body]
pub(crate) fn str_eq(a: &str, b: &str) -> (res: bool)
    ensures
        res == (a@ == b@),
{
    a == b
}

/// An owned copy of a string slice.
pub(crate) fn owned(s: &str) -> (res: String)
    ensures
        res@ == s@,
{
    s.to_owned()
}

} // verus!
