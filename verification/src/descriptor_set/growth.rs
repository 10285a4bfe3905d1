//! How large each batch of descriptor sets is.
//!
//! The first batch holds three sets and every later one twice as many as the
//! one before it, until the count no longer fits in a `u32`; from then on
//! every batch holds `u32::MAX` sets.

use vstd::arithmetic::power2::*;
use vstd::prelude::*;

verus! {

/// The number of sets in the first batch.
pub const FIRST_CAPACITY: u32 = 3;

/// The number of sets in the batch that is created after `created` earlier
/// ones: `3 * 2^created`, or `u32::MAX` where that does not fit.
pub open spec fn capacity_of_batch(created: nat) -> nat {
    if 3 * pow2(created) > u32::MAX {
        u32::MAX as nat
    } else {
        3 * pow2(created)
    }
}

/// `u32::saturating_mul` multiplies without wrapping: a product that does not
/// fit comes back as `u32::MAX`.
pub assume_specification[ u32::saturating_mul ](x: u32, rhs: u32) -> (product: u32)
    ensures
        product == if x * rhs > u32::MAX {
            u32::MAX as int
        } else {
            x * rhs
        },
;

/// Twice `capacity`, or `u32::MAX` where that does not fit.
pub open spec fn doubled(capacity: u32) -> u32 {
    if 2 * capacity > u32::MAX {
        u32::MAX
    } else {
        (2 * capacity) as u32
    }
}

/// The capacity that follows `capacity`.
pub fn grown(capacity: u32) -> (next: u32)
    ensures
        next == doubled(capacity),
{
    capacity.saturating_mul(2)
}

/// The first batch holds three sets.
pub proof fn lemma_first_capacity()
    ensures
        capacity_of_batch(0) == FIRST_CAPACITY,
{
    lemma2_to64();
}

/// Batch sizes never shrink, never fall below three and always fit in a `u32`.
pub proof fn lemma_capacity_bounds(created: nat)
    ensures
        3 <= capacity_of_batch(created) <= u32::MAX,
        capacity_of_batch(created) <= capacity_of_batch(created + 1),
{
    lemma_pow2_unfold(created + 1);
    lemma_pow2_pos(created);
}

/// Doubling with saturation leads from each batch size to the next.
pub proof fn lemma_capacity_step(created: nat)
    ensures
        capacity_of_batch(created + 1) == doubled(capacity_of_batch(created) as u32),
{
    lemma_pow2_unfold(created + 1);
}

} // verus!
