//! Choosing among the sizes in which a photo is offered.

use vstd::prelude::*;

verus! {

/// The number of pixels of a photo of `size.0` by `size.1`.
pub open spec fn area(size: (u32, u32)) -> nat {
    (size.0 * size.1) as nat
}

/// Whether `index` is the first of `sizes` with the most pixels.
pub open spec fn is_largest(sizes: Seq<(u32, u32)>, index: int) -> bool {
    &&& 0 <= index < sizes.len()
    &&& forall|i: int| 0 <= i < sizes.len() ==> area(#[trigger] sizes[i]) <= area(sizes[index])
    &&& forall|i: int| 0 <= i < index ==> area(#[trigger] sizes[i]) < area(sizes[index])
}

/// The index of the photo with the most pixels, where `sizes` gives the width
/// and the height of each; of several with the most, the first.
pub fn largest_photo(sizes: &Vec<(u32, u32)>) -> (index: usize)
    requires
        sizes.len() > 0,
    ensures
        is_largest(sizes@, index as int),
{
    let mut best: usize = 0;
    let mut best_area: u64 = pixels(sizes[0]);
    let mut i: usize = 1;
    while i < sizes.len()
        invariant
            1 <= i <= sizes.len(),
            best_area == area(sizes@[best as int]),
            is_largest(sizes@.take(i as int), best as int),
        decreases sizes.len() - i,
    {
        let ghost seen = sizes@.take(i as int);
        let ghost next = sizes@.take(i + 1);
        let here = pixels(sizes[i]);
        if here > best_area {
            best_area = here;
            best = i;
        }
        proof {
            assert forall|k: int| 0 <= k < next.len() implies area(#[trigger] next[k]) <= area(
                next[best as int],
            ) by {
                if k < i {
                    assert(seen[k] == next[k]);
                }
            }
            assert forall|k: int| 0 <= k < best implies area(#[trigger] next[k]) < area(
                next[best as int],
            ) by {
                assert(seen[k] == next[k]);
            }
        }
        i += 1;
    }
    proof {
        assert(sizes@.take(sizes.len() as int) =~= sizes@);
    }
    best
}

/// The number of pixels of a photo.
fn pixels(size: (u32, u32)) -> (count: u64)
    ensures
        count == area(size),
{
    proof {
        assert(size.0 * size.1 <= u32::MAX * u32::MAX) by (nonlinear_arith)
            requires
                0 <= size.0 <= u32::MAX,
                0 <= size.1 <= u32::MAX,
        ;
    }
    (size.0 as u64) * (size.1 as u64)
}

} // verus!
