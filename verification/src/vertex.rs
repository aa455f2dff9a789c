//! Cutting flat vertex data into vertices.
//!
//! Vertex data arrives as one flat list of components. A vertex format takes
//! a fixed number of them per vertex, so the list is cut into consecutive
//! groups of that width, and a list that does not divide evenly is refused.

use vstd::arithmetic::div_mod::lemma_fundamental_div_mod;
use vstd::arithmetic::mul::{lemma_mul_inequality, lemma_mul_is_distributive_add_other_way};
use vstd::prelude::*;

verus! {

/// `groups` are the consecutive runs of `width` components of `values`.
pub open spec fn is_grouping<T>(values: Seq<T>, width: int, groups: Seq<Seq<T>>) -> bool {
    &&& groups.len() * width == values.len()
    &&& forall|i: int| 0 <= i < groups.len() ==> (#[trigger] groups[i]).len() == width
    &&& forall|i: int, j: int|
        0 <= i < groups.len() && 0 <= j < width ==> (#[trigger] groups[i][j]) == values[i * width
            + j]
}

/// The models of a vector of groups.
pub open spec fn group_models<T>(groups: Seq<Vec<T>>) -> Seq<Seq<T>> {
    Seq::new(groups.len(), |i: int| groups[i]@)
}

/// Cuts `values` into consecutive groups of `width` components. Returns
/// `None` when the number of components is not a multiple of `width`.
pub fn groups_of<T: Copy>(values: &Vec<T>, width: usize) -> (groups: Option<Vec<Vec<T>>>)
    requires
        width > 0,
    ensures
        groups is Some <==> values@.len() % (width as nat) == 0,
        groups matches Some(g) ==> is_grouping(values@, width as int, group_models(g@)),
{
    if values.len() % width != 0 {
        return None;
    }
    let count: usize = values.len() / width;
    proof {
        lemma_fundamental_div_mod(values@.len() as int, width as int);
    }
    let mut groups: Vec<Vec<T>> = Vec::with_capacity(count);
    let mut i: usize = 0;
    while i < count
        invariant
            i <= count,
            width > 0,
            width * count == values@.len(),
            values@.len() <= usize::MAX,
            groups@.len() == i,
            forall|a: int| 0 <= a < i ==> (#[trigger] groups@[a])@.len() == width,
            forall|a: int, b: int|
                0 <= a < i && 0 <= b < width ==> (#[trigger] groups@[a]@[b]) == values@[a * width
                    + b],
        decreases count - i,
    {
        proof {
            lemma_mul_inequality(i as int + 1, count as int, width as int);
            lemma_mul_is_distributive_add_other_way(width as int, i as int, 1);
            assert(i * width + width <= values@.len()) by (nonlinear_arith)
                requires
                    (i + 1) * width <= count * width,
                    (i + 1) * width == i * width + 1 * width,
                    width * count == values@.len(),
            ;
            assert(0 <= i * width) by (nonlinear_arith)
                requires
                    0 <= i,
                    0 < width,
            ;
        }
        let start: usize = i * width;
        let mut group: Vec<T> = Vec::with_capacity(width);
        let mut j: usize = 0;
        while j < width
            invariant
                j <= width,
                start == i * width,
                start + width <= values@.len(),
                values@.len() <= usize::MAX,
                group@.len() == j,
                forall|b: int| 0 <= b < j ==> (#[trigger] group@[b]) == values@[start + b],
            decreases width - j,
        {
            group.push(values[start + j]);
            j = j + 1;
        }
        groups.push(group);
        i = i + 1;
    }
    proof {
        assert(count * width == values@.len()) by (nonlinear_arith)
            requires
                width * count == values@.len(),
        ;
    }
    Some(groups)
}

/// A list of components has at most one grouping of a given width.
pub proof fn lemma_grouping_is_unique<T>(
    values: Seq<T>,
    width: int,
    a: Seq<Seq<T>>,
    b: Seq<Seq<T>>,
)
    requires
        width > 0,
        is_grouping(values, width, a),
        is_grouping(values, width, b),
    ensures
        a == b,
{
    assert(a.len() == b.len()) by (nonlinear_arith)
        requires
            a.len() * width == values.len(),
            b.len() * width == values.len(),
            width > 0,
    ;
    assert forall|i: int| 0 <= i < a.len() implies a[i] == b[i] by {
        assert forall|j: int| 0 <= j < width implies a[i][j] == b[i][j] by {
            assert(a[i][j] == values[i * width + j]);
            assert(b[i][j] == values[i * width + j]);
        }
        assert(a[i] =~= b[i]);
    }
}

} // verus!
