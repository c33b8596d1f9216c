use vstd::prelude::*;

verus! {

/// Whether `s` is an IRI by the grammar of RFC 3987.
pub uninterp spec fn iri_is_valid(s: Seq<char>) -> bool;

/// Relies on `iref::Iri::new`: it accepts a text exactly when the text matches
/// the IRI grammar of RFC 3987, which depends on the text alone.
#[verifier::external_body]
pub(crate) fn check_iri(s: &str) -> (r: bool)
    ensures
        r == iri_is_valid(s@),
{
    iref::Iri::new(s).is_ok()
}

} // verus!
