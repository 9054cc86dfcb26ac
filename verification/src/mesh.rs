//! Checks on mesh index lists.
use vstd::prelude::*;

verus! {

/// The distinct values of `s`, in order of first appearance.
pub open spec fn distinct_values(s: Seq<u32>) -> Seq<u32>
    decreases s.len(),
{
    if s.len() == 0 {
        Seq::empty()
    } else {
        let d = distinct_values(s.drop_last());
        if d.contains(s.last()) {
            d
        } else {
            d.push(s.last())
        }
    }
}

proof fn lemma_distinct_values_prefix_grows(s: Seq<u32>, k: int)
    requires
        0 <= k <= s.len(),
    ensures
        distinct_values(s.take(k)).len() <= distinct_values(s).len(),
    decreases s.len() - k,
{
    if k < s.len() {
        lemma_distinct_values_prefix_grows(s, k + 1);
        assert(s.take(k + 1).drop_last() =~= s.take(k));
    } else {
        assert(s.take(k) =~= s);
    }
}

/// Whether the indices of a six-index quad window name exactly four
/// vertices.
pub fn has_four_unique_indices(indices: &[u32]) -> (r: bool)
    ensures
        r == (distinct_values(indices@).len() == 4),
{
    let mut unique: [u32; 4] = [0; 4];
    let mut count: usize = 0;
    let mut i: usize = 0;
    while i < indices.len()
        invariant
            i <= indices@.len(),
            count <= 4,
            distinct_values(indices@.take(i as int)).len() == count,
            forall|k: int| 0 <= k < count ==> #[trigger] unique@[k] == distinct_values(
                indices@.take(i as int),
            )[k],
        decreases indices@.len() - i,
    {
        let index = indices[i];
        let ghost d = distinct_values(indices@.take(i as int));
        proof {
            assert(indices@.take(i + 1).drop_last() =~= indices@.take(i as int));
            assert(indices@.take(i + 1).last() == index);
        }
        let mut seen = false;
        let mut k: usize = 0;
        while k < count
            invariant
                k <= count,
                count <= 4,
                d.len() == count,
                forall|m: int| 0 <= m < count ==> #[trigger] unique@[m] == d[m],
                seen <==> exists|m: int| 0 <= m < k && d[m] == index,
            decreases count - k,
        {
            if unique[k] == index {
                seen = true;
            }
            k = k + 1;
        }
        assert(seen <==> d.contains(index));
        if !seen {
            if count == 4 {
                proof {
                    lemma_distinct_values_prefix_grows(indices@, i + 1);
                }
                return false;
            }
            unique[count] = index;
            count = count + 1;
        }
        i = i + 1;
    }
    assert(indices@.take(indices@.len() as int) =~= indices@);
    count == 4
}

/// A mesh index that does not fit a `usize`.
#[derive(Clone, Copy, Debug, PartialEq, Eq, Structural)]
pub struct MeshIndexOverflow;

/// A mesh index as a `usize`; every `u32` fits on the targets this runs on.
pub fn mesh_index_to_usize(index: u32) -> (r: Result<usize, MeshIndexOverflow>)
    ensures
        r == Ok::<usize, MeshIndexOverflow>(index as usize),
{
    Ok(index as usize)
}

} // verus!
