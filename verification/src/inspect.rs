//! Which elements a preview of a dataset shows.

use vstd::prelude::*;
use crate::dataspace::least;

verus! {

/// The index of the `i`-th element along dimension `dim` of an array of
/// rank `rank`: `i` in that dimension, the origin in every other.
pub open spec fn preview_index(rank: nat, dim: int, i: int) -> Seq<usize> {
    Seq::new(rank, |k: int| if k == dim { i as usize } else { 0usize })
}

/// How many elements a preview of `n` shows of a dimension of `axis_len`.
pub fn preview_len(axis_len: usize, n: usize) -> (len: usize)
    ensures
        len == least(axis_len as int, n as int),
{
    if axis_len <= n {
        axis_len
    } else {
        n
    }
}

/// The index of the `i`-th element along dimension `dim_index` of an array
/// of rank `rank`.
pub fn index_along(rank: usize, dim_index: usize, i: usize) -> (index: Vec<usize>)
    ensures
        index@ == preview_index(rank as nat, dim_index as int, i as int),
{
    let mut index: Vec<usize> = Vec::new();
    let mut k: usize = 0;
    while k < rank
        invariant
            k <= rank,
            index@.len() == k,
            forall|j: int| 0 <= j < k ==> index@[j] == if j == dim_index { i } else { 0usize },
        decreases rank - k,
    {
        if k == dim_index {
            index.push(i);
        } else {
            index.push(0);
        }
        k = k + 1;
    }
    assert(index@ =~= preview_index(rank as nat, dim_index as int, i as int));
    index
}

/// The indices of the first `n` elements along dimension `dim_index` of an
/// array of the given shape, or of all if the dimension is shorter: each
/// varies in that dimension only.
pub fn preview_indices(shape: &Vec<usize>, dim_index: usize, n: usize) -> (indices: Vec<Vec<usize>>)
    requires
        dim_index < shape@.len(),
    ensures
        indices@.len() == least(shape@[dim_index as int] as int, n as int),
        forall|i: int|
            0 <= i < indices@.len() ==> (#[trigger] indices@[i])@ == preview_index(
                shape@.len(),
                dim_index as int,
                i,
            ),
{
    let count: usize = preview_len(shape[dim_index], n);
    let rank: usize = shape.len();
    let mut indices: Vec<Vec<usize>> = Vec::new();
    let mut i: usize = 0;
    while i < count
        invariant
            i <= count,
            rank == shape@.len(),
            indices@.len() == i,
            forall|j: int|
                0 <= j < i ==> (#[trigger] indices@[j])@ == preview_index(rank as nat, dim_index as int, j),
        decreases count - i,
    {
        indices.push(index_along(rank, dim_index, i));
        i = i + 1;
    }
    indices
}

} // verus!
