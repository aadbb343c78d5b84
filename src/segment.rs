//! Turning a string into comparable units: one per code point, or one per
//! extended grapheme cluster.

use vstd::prelude::*;
use vstd::std_specs::iter::IteratorSpec;
use unicode_segmentation::UnicodeSegmentation;
use crate::distance::units;

verus! {

broadcast use vstd::string::group_string_axioms;

/// The extended grapheme clusters of a text, in order (Unicode UAX #29).
pub uninterp spec fn grapheme_clusters(s: Seq<char>) -> Seq<Seq<char>>;

/// Relies on `UnicodeSegmentation::graphemes(s, true)`: the extended grapheme
/// clusters of `s`, in order.
#[verifier::external_body]
pub(crate) fn graphemes(s: &str) -> (r: Vec<String>)
    ensures
        units(r@) == grapheme_clusters(s@),
{
    UnicodeSegmentation::graphemes(s, true).map(|g| g.to_string()).collect()
}

/// The code points of `s`, in order.
pub fn code_points(s: &str) -> (r: Vec<char>)
    ensures
        r@ == s@,
{
    let mut it = s.chars();
    let mut r: Vec<char> = Vec::new();
    loop
        invariant
            r@ + it.remaining() == s@,
            it.obeys_prophetic_iter_laws(),
            it.decrease() is Some,
        ensures
            r@ == s@,
        decreases it.decrease()->0,
    {
        match it.next() {
            Some(c) => {
                r.push(c);
            },
            None => {
                assert(r@ + it.remaining() =~= r@);
                break ;
            },
        }
    }
    r
}

} // verus!
