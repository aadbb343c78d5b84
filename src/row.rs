//! The rows of the distance table: small vectors of counts that stay inline
//! for short inputs and move to the heap for longer ones.

use vstd::prelude::*;
use smallvec::SmallVec;

verus! {

/// A row of counts, inline up to 32 entries. Verus sees it only through
/// `row_values` and the functions below.
#[verifier::external_body]
pub struct Row {
    cells: SmallVec<[usize; 32]>,
}

/// The entries of a row, in order.
pub uninterp spec fn row_values(v: Row) -> Seq<usize>;

/// Relies on `SmallVec`'s `FromIterator`: the row `1, 2, ..., n`.
#[verifier::external_body]
pub(crate) fn row_counting(n: usize) -> (r: Row)
    ensures
        row_values(r) == Seq::new(n as nat, |j: int| (j + 1) as usize),
{
    Row { cells: (1..=n).collect() }
}

/// Relies on `SmallVec::from_elem`: a row of `n` entries, each `value`.
#[verifier::external_body]
pub(crate) fn row_filled(value: usize, n: usize) -> (r: Row)
    ensures
        row_values(r) == Seq::new(n as nat, |j: int| value),
{
    Row { cells: SmallVec::from_elem(value, n) }
}

/// Relies on `SmallVec`'s `Index<usize>`: the entry at `i`.
#[verifier::external_body]
pub(crate) fn row_get(v: &Row, i: usize) -> (r: usize)
    requires
        i < row_values(*v).len(),
    ensures
        r == row_values(*v)[i as int],
{
    v.cells[i]
}

/// Relies on `SmallVec`'s `IndexMut<usize>`: overwrites the entry at `i`.
#[verifier::external_body]
pub(crate) fn row_set(v: &mut Row, i: usize, value: usize)
    requires
        i < row_values(*old(v)).len(),
    ensures
        row_values(*final(v)) == row_values(*old(v)).update(i as int, value),
{
    v.cells[i] = value;
}

} // verus!
