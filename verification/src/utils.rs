//! Buffer-growth policy: given the byte size of an existing backing store and
//! a required element count, compute the new byte size by doubling the current
//! size until it suffices. A zero-size store is seeded with one element's
//! byte size first, since doubling zero never grows.

use vstd::prelude::*;
use vstd::arithmetic::power2::{pow2, lemma_pow2_unfold};

verus! {

/// The starting size the doubling loop works from: the current capacity,
/// unless that is zero, in which case one element's byte size seeds it.
pub open spec fn grow_seed(current_capacity_bytes: int, element_size_bytes: int) -> int {
    if current_capacity_bytes == 0 {
        element_size_bytes
    } else {
        current_capacity_bytes
    }
}

/// Termination measure for the doubling recursion: how far `size` still is
/// from `required`, clamped at zero.
pub open spec fn grow_measure(size: int, required: int) -> int {
    if required - size > 0 {
        required - size
    } else {
        0
    }
}

/// The size reached by doubling `size` until it is at least `required`.
pub open spec fn grown_size(size: int, required: int) -> int
    decreases grow_measure(size, required),
    when size >= 1
{
    if size >= required {
        size
    } else {
        grown_size(2 * size, required)
    }
}

/// The grown size is large enough for the requirement and never shrinks.
pub proof fn lemma_grown_size_sufficient(size: int, required: int)
    requires
        size >= 1,
    ensures
        grown_size(size, required) >= required,
        grown_size(size, required) >= size,
    decreases grow_measure(size, required),
{
    if size < required {
        lemma_grown_size_sufficient(2 * size, required);
    }
}

/// The grown size is the starting size times a power of two.
pub proof fn lemma_grown_size_pow2(size: int, required: int)
    requires
        size >= 1,
    ensures
        exists|k: nat| grown_size(size, required) == size * pow2(k),
    decreases grow_measure(size, required),
{
    if size >= required {
        assert(pow2(0) == 1) by {
            vstd::arithmetic::power::lemma_pow0(2);
        }
        assert(grown_size(size, required) == size * pow2(0));
    } else {
        lemma_grown_size_pow2(2 * size, required);
        let k = choose|k: nat| grown_size(2 * size, required) == (2 * size) * pow2(k);
        lemma_pow2_unfold((k + 1) as nat);
        assert((2 * size) * pow2(k) == size * (2 * pow2(k))) by (nonlinear_arith);
        assert(grown_size(size, required) == size * pow2((k + 1) as nat));
    }
}

/// Doubling stops as soon as the requirement is met: when the start is
/// already short of the requirement, the result stays under twice the
/// requirement, so the computation never overshoots past one final doubling.
pub proof fn lemma_grown_size_bound(size: int, required: int)
    requires
        1 <= size < required,
    ensures
        grown_size(size, required) < 2 * required,
    decreases grow_measure(size, required),
{
    if 2 * size < required {
        lemma_grown_size_bound(2 * size, required);
    } else {
        assert(grown_size(2 * size, required) == 2 * size);
    }
}

/// Growth law: for any requirement and any starting capacity (seeded when
/// zero by the positive element size), the grown capacity is at least the
/// required byte count and is the seed capacity times a power of two.
pub proof fn lemma_grow_buffer_law(
    current_capacity_bytes: int,
    element_size_bytes: int,
    required_element_count: int,
)
    requires
        current_capacity_bytes >= 0,
        element_size_bytes >= 1,
        required_element_count >= 0,
    ensures
        ({
            let seed = grow_seed(current_capacity_bytes, element_size_bytes);
            let grown = grown_size(seed, required_element_count * element_size_bytes);
            &&& grown >= required_element_count * element_size_bytes
            &&& exists|k: nat| grown == seed * pow2(k)
        }),
{
    let seed = grow_seed(current_capacity_bytes, element_size_bytes);
    lemma_grown_size_sufficient(seed, required_element_count * element_size_bytes);
    lemma_grown_size_pow2(seed, required_element_count * element_size_bytes);
}

/// Compute the new byte capacity for a backing store that must hold
/// `required_element_count` elements of `element_size_bytes` bytes each,
/// by doubling the current byte capacity (seeded when zero) until it
/// reaches the required byte count.
pub fn grow_buffer(
    current_capacity_bytes: usize,
    element_size_bytes: usize,
    required_element_count: usize,
) -> (new_capacity_bytes: usize)
    requires
        element_size_bytes > 0,
        required_element_count * element_size_bytes <= usize::MAX / 2,
    ensures
        new_capacity_bytes == grown_size(
            grow_seed(current_capacity_bytes as int, element_size_bytes as int),
            required_element_count * element_size_bytes,
        ),
{
    let required_bytes: usize = required_element_count * element_size_bytes;
    let mut size: usize = if current_capacity_bytes == 0 {
        element_size_bytes
    } else {
        current_capacity_bytes
    };
    while size < required_bytes
        invariant
            1 <= size,
            1 <= element_size_bytes,
            required_bytes <= usize::MAX / 2,
            grown_size(size as int, required_bytes as int) == grown_size(
                grow_seed(current_capacity_bytes as int, element_size_bytes as int),
                required_bytes as int,
            ),
        decreases grow_measure(size as int, required_bytes as int),
    {
        size = size * 2;
    }
    size
}

} // verus!
