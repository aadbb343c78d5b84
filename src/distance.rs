//! The edit-distance engine, generic over any unit type whose equality is
//! the equality of its view.

use vstd::prelude::*;
use crate::row::{row_counting, row_filled, row_get, row_set, row_values};

verus! {

/// A comparable unit of text: two units are equal exactly when their views are.
pub trait Unit: View + Sized {
    fn same(&self, other: &Self) -> (r: bool)
        ensures
            r == (self@ == other@),
    ;
}

impl Unit for char {
    fn same(&self, other: &char) -> (r: bool) {
        *self == *other
    }
}

impl Unit for String {
    fn same(&self, other: &String) -> (r: bool) {
        *self == *other
    }
}

/// The views of a sequence of units.
pub open spec fn units<T: View>(s: Seq<T>) -> Seq<T::V> {
    s.map_values(|u: T| u@)
}

pub open spec fn min3(x: nat, y: nat, z: nat) -> nat {
    if x <= y && x <= z {
        x
    } else if y <= z {
        y
    } else {
        z
    }
}

/// Cost of aligning unit `x` with unit `y`.
pub open spec fn sub_cost<V>(x: V, y: V) -> nat {
    if x == y {
        0
    } else {
        1
    }
}

/// The least number of single-unit insertions, deletions and substitutions
/// that turn `a` into `b`.
pub open spec fn edit_distance<V>(a: Seq<V>, b: Seq<V>) -> nat
    decreases a.len() + b.len(),
{
    if a.len() == 0 {
        b.len()
    } else if b.len() == 0 {
        a.len()
    } else {
        min3(
            edit_distance(a.drop_last(), b) + 1,
            edit_distance(a, b.drop_last()) + 1,
            edit_distance(a.drop_last(), b.drop_last()) + sub_cost(a.last(), b.last()),
        )
    }
}

pub open spec fn max_len<V>(a: Seq<V>, b: Seq<V>) -> nat {
    if a.len() >= b.len() {
        a.len()
    } else {
        b.len()
    }
}

pub open spec fn len_gap<V>(a: Seq<V>, b: Seq<V>) -> nat {
    if a.len() >= b.len() {
        (a.len() - b.len()) as nat
    } else {
        (b.len() - a.len()) as nat
    }
}

/// A sequence is at distance zero from itself.
pub proof fn lemma_identity<V>(a: Seq<V>)
    ensures
        edit_distance(a, a) == 0,
    decreases a.len(),
{
    if a.len() > 0 {
        lemma_identity(a.drop_last());
    }
}

/// The distance does not depend on the order of its arguments.
pub proof fn lemma_symmetric<V>(a: Seq<V>, b: Seq<V>)
    ensures
        edit_distance(a, b) == edit_distance(b, a),
    decreases a.len() + b.len(),
{
    if a.len() > 0 && b.len() > 0 {
        lemma_symmetric(a.drop_last(), b);
        lemma_symmetric(a, b.drop_last());
        lemma_symmetric(a.drop_last(), b.drop_last());
    }
}

/// The distance lies between the difference of the lengths and the larger length.
pub proof fn lemma_bounds<V>(a: Seq<V>, b: Seq<V>)
    ensures
        len_gap(a, b) <= edit_distance(a, b) <= max_len(a, b),
    decreases a.len() + b.len(),
{
    if a.len() > 0 && b.len() > 0 {
        lemma_bounds(a.drop_last(), b);
        lemma_bounds(a, b.drop_last());
        lemma_bounds(a.drop_last(), b.drop_last());
    }
}

/// Going from `a` to `c` never costs more than going through `b`.
pub proof fn lemma_triangle<V>(a: Seq<V>, b: Seq<V>, c: Seq<V>)
    ensures
        edit_distance(a, c) <= edit_distance(a, b) + edit_distance(b, c),
    decreases a.len() + b.len() + c.len(),
{
    if a.len() == 0 || c.len() == 0 || b.len() == 0 {
        lemma_bounds(a, b);
        lemma_bounds(b, c);
        lemma_bounds(a, c);
    } else {
        let (a1, b1, c1) = (a.drop_last(), b.drop_last(), c.drop_last());
        let dab = edit_distance(a, b);
        let dbc = edit_distance(b, c);
        if dab == edit_distance(a1, b) + 1 {
            lemma_triangle(a1, b, c);
        } else if dbc == edit_distance(b, c1) + 1 {
            lemma_triangle(a, b, c1);
        } else if dab == edit_distance(a, b1) + 1 {
            if dbc == edit_distance(b1, c) + 1 {
                lemma_triangle(a, b1, c);
            } else {
                lemma_triangle(a, b1, c1);
            }
        } else {
            if dbc == edit_distance(b1, c) + 1 {
                lemma_triangle(a1, b1, c);
            } else {
                lemma_triangle(a1, b1, c1);
            }
        }
    }
}

/// Edit distance between two unit sequences, kept in two rolling rows as
/// wide as the shorter sequence.
pub fn levenshtein_impl<T: Unit>(s1: &[T], s2: &[T]) -> (r: usize)
    ensures
        r == edit_distance(units(s1@), units(s2@)),
{
    proof {
        lemma_symmetric(units(s1@), units(s2@));
    }
    let (us1, us2) = if s1.len() < s2.len() {
        (s2, s1)
    } else {
        (s1, s2)
    };
    let ghost x = units(us1@);
    let ghost y = units(us2@);
    assert(edit_distance(x, y) == edit_distance(units(s1@), units(s2@)));
    let n = us1.len();
    let m = us2.len();
    if n == 0 {
        return m;
    } else if m == 0 {
        return n;
    }
    // Entry `j` of a row holds column `j + 1`; column 0 of row `i` is `i`.

    let mut prev = row_counting(m);
    let mut cur = row_filled(0, m);
    assert forall|j: int| 0 <= j < m implies row_values(prev)[j] == edit_distance(
        x.take(0),
        y.take(j + 1),
    ) by {
        assert(x.take(0).len() == 0);
    }
    let mut i: usize = 0;
    while i < n
        invariant
            i <= n,
            n == x.len(),
            m == y.len(),
            1 <= m <= n,
            x == units(us1@),
            y == units(us2@),
            row_values(prev).len() == m,
            row_values(cur).len() == m,
            forall|j: int|
                0 <= j < m ==> row_values(prev)[j] == edit_distance(x.take(i as int), y.take(j + 1)),
        decreases n - i,
    {
        let r = i + 1;
        let ghost xr = x.take(r as int);
        let ghost xp = x.take(i as int);
        assert(xr.drop_last() =~= xp);
        assert(xr.last() == us1@[i as int]@);
        assert(xr.len() == r && xp.len() == i);
        assert(edit_distance(xr, y.take(0)) == r);
        assert(edit_distance(xp, y.take(0)) == i);
        let mut c: usize = 0;
        while c < m
            invariant
                i < n,
                r == i + 1,
                c <= m,
                n == x.len(),
                m == y.len(),
                1 <= m <= n,
                x == units(us1@),
                y == units(us2@),
                xr == x.take(r as int),
                xp == x.take(i as int),
                xr.drop_last() == xp,
                xr.len() == r,
                xr.last() == us1@[i as int]@,
                edit_distance(xr, y.take(0)) == r,
                edit_distance(xp, y.take(0)) == i,
                row_values(prev).len() == m,
                row_values(cur).len() == m,
                forall|j: int| 0 <= j < m ==> row_values(prev)[j] == edit_distance(xp, y.take(j + 1)),
                forall|j: int| 0 <= j < c ==> row_values(cur)[j] == edit_distance(xr, y.take(j + 1)),
            decreases m - c,
        {
            let ghost yc = y.take(c + 1);
            let ghost yp = y.take(c as int);
            assert(yc.drop_last() =~= yp);
            assert(yc.last() == us2@[c as int]@);
            proof {
                lemma_bounds(xr, yc);
            }
            let up = row_get(&prev, c);
            let (diag, left) = if c == 0 {
                (i, r)
            } else {
                (row_get(&prev, c - 1), row_get(&cur, c - 1))
            };
            let del = up.saturating_add(1);
            let ins = left.saturating_add(1);
            let edit = if us1[i].same(&us2[c]) {
                diag
            } else {
                diag.saturating_add(1)
            };
            let del_or_ins = if del < ins {
                del
            } else {
                ins
            };
            let v = if del_or_ins < edit {
                del_or_ins
            } else {
                edit
            };
            assert(v == edit_distance(xr, yc));
            row_set(&mut cur, c, v);
            c = c + 1;
        }
        std::mem::swap(&mut prev, &mut cur);
        i = i + 1;
    }
    assert(x.take(n as int) =~= x);
    assert(y.take(m as int) =~= y);
    row_get(&prev, m - 1)
}

} // verus!
