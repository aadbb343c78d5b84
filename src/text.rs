//! Edit distance between two strings under a segmentation mode.

use vstd::prelude::*;
use crate::distance::{
    edit_distance, levenshtein_impl, lemma_bounds, lemma_identity,
    lemma_symmetric, lemma_triangle, units,
};
use crate::segment::{code_points, grapheme_clusters, graphemes};

verus! {

/// The units of `s` measured under the chosen segmentation: grapheme
/// clusters, or code points.
pub open spec fn unit_count(s: Seq<char>, grapheme_segmentation: bool) -> nat {
    if grapheme_segmentation {
        grapheme_clusters(s).len()
    } else {
        s.len()
    }
}

/// Edit distance between two texts, counted in grapheme clusters or in code points.
pub open spec fn text_distance(a: Seq<char>, b: Seq<char>, grapheme_segmentation: bool) -> nat {
    if grapheme_segmentation {
        edit_distance(grapheme_clusters(a), grapheme_clusters(b))
    } else {
        edit_distance(a, b)
    }
}

/// Relies on `<str as PartialEq>::eq`: two strings are equal exactly when
/// they hold the same code points.
#[verifier::external_body]
fn same_text(a: &str, b: &str) -> (r: bool)
    ensures
        r == (a@ == b@),
{
    a == b
}

/// The edit distance between `s1` and `s2`, counted in grapheme clusters when
/// `grapheme_segmentation` holds and in code points otherwise. Identical
/// strings are answered without segmenting them.
pub fn levenshtein(s1: &str, s2: &str, grapheme_segmentation: bool) -> (r: usize)
    ensures
        r == text_distance(s1@, s2@, grapheme_segmentation),
{
    if same_text(s1, s2) {
        proof {
            lemma_identity(grapheme_clusters(s1@));
            lemma_identity(s1@);
        }
        return 0;
    }
    if grapheme_segmentation {
        let us1 = graphemes(s1);
        let us2 = graphemes(s2);
        levenshtein_impl(us1.as_slice(), us2.as_slice())
    } else {
        let us1 = code_points(s1);
        let us2 = code_points(s2);
        assert(units(us1@) =~= s1@);
        assert(units(us2@) =~= s2@);
        levenshtein_impl(us1.as_slice(), us2.as_slice())
    }
}

/// Every text is at distance zero from itself, under either segmentation.
pub proof fn lemma_text_identity(s: Seq<char>, grapheme_segmentation: bool)
    ensures
        text_distance(s, s, grapheme_segmentation) == 0,
{
    lemma_identity(s);
    lemma_identity(grapheme_clusters(s));
}

/// The distance between two texts does not depend on their order.
pub proof fn lemma_text_symmetric(a: Seq<char>, b: Seq<char>, grapheme_segmentation: bool)
    ensures
        text_distance(a, b, grapheme_segmentation) == text_distance(b, a, grapheme_segmentation),
{
    lemma_symmetric(a, b);
    lemma_symmetric(grapheme_clusters(a), grapheme_clusters(b));
}

/// The distance from `a` to `c` is at most the distance from `a` to `b` plus
/// the distance from `b` to `c`.
pub proof fn lemma_text_triangle(
    a: Seq<char>,
    b: Seq<char>,
    c: Seq<char>,
    grapheme_segmentation: bool,
)
    ensures
        text_distance(a, c, grapheme_segmentation) <= text_distance(a, b, grapheme_segmentation)
            + text_distance(b, c, grapheme_segmentation),
{
    lemma_triangle(a, b, c);
    lemma_triangle(grapheme_clusters(a), grapheme_clusters(b), grapheme_clusters(c));
}

/// The distance is at least the difference of the two unit counts and at
/// most the larger of them, units being counted under the same segmentation.
pub proof fn lemma_text_bounds(a: Seq<char>, b: Seq<char>, grapheme_segmentation: bool)
    ensures
        ({
            let (m, n) = (unit_count(a, grapheme_segmentation), unit_count(b, grapheme_segmentation));
            let d = text_distance(a, b, grapheme_segmentation);
            &&& m <= n + d
            &&& n <= m + d
            &&& d <= if m >= n { m } else { n }
        }),
{
    lemma_bounds(a, b);
    lemma_bounds(grapheme_clusters(a), grapheme_clusters(b));
}

} // verus!
