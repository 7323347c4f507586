//! How a GPU buffer that is rewritten every frame grows: never shrinking, and to the next power
//! of two when a frame's data no longer fits, so it reallocates rarely.
use vstd::prelude::*;

verus! {

/// `n` is a power of two.
pub open spec fn is_power_of_two(n: nat) -> bool
    decreases n,
{
    if n == 1 {
        true
    } else if n >= 2 && n % 2 == 0 {
        is_power_of_two(n / 2)
    } else {
        false
    }
}

/// `p` is the smallest power of two that is at least `n`.
pub open spec fn is_power_of_two_ceiling(p: nat, n: nat) -> bool {
    &&& is_power_of_two(p)
    &&& p >= n
    &&& (p == 1 || p / 2 < n)
}

/// The std method `u64::next_power_of_two`: its documentation promises the smallest power of
/// two greater than or equal to `n`. Above `2^63` it would overflow (a panic in debug builds),
/// so such `n` are left out.
#[verifier::external_body]
fn next_power_of_two(n: u64) -> (p: u64)
    requires
        n <= 0x8000_0000_0000_0000,
    ensures
        is_power_of_two_ceiling(p as nat, n as nat),
{
    n.next_power_of_two()
}

/// The size a buffer starts with, in bytes.
pub const INITIAL_CAPACITY: u64 = 4096;

/// The capacity bookkeeping of a buffer that grows (never shrinks) to fit what is written to it.
pub struct GrowCapacity {
    capacity: u64,
}

impl GrowCapacity {
    pub closed spec fn spec_capacity(&self) -> u64 {
        self.capacity
    }

    /// A buffer of [`INITIAL_CAPACITY`] bytes.
    pub fn new() -> (g: GrowCapacity)
        ensures
            g.spec_capacity() == INITIAL_CAPACITY,
    {
        GrowCapacity { capacity: INITIAL_CAPACITY }
    }

    /// The current size in bytes.
    pub fn capacity(&self) -> (c: u64)
        ensures
            c == self.spec_capacity(),
    {
        self.capacity
    }

    /// Makes room for writing `needed` bytes. Returns whether the buffer must be reallocated:
    /// exactly when `needed` exceeds the capacity, which then becomes the smallest power of two
    /// that holds `needed`.
    pub fn reserve(&mut self, needed: u64) -> (grew: bool)
        requires
            needed > old(self).spec_capacity() ==> needed <= 0x8000_0000_0000_0000,
        ensures
            grew == (needed > old(self).spec_capacity()),
            grew ==> is_power_of_two_ceiling(final(self).spec_capacity() as nat, needed as nat),
            !grew ==> final(self).spec_capacity() == old(self).spec_capacity(),
            final(self).spec_capacity() >= old(self).spec_capacity(),
            final(self).spec_capacity() >= needed,
    {
        if needed > self.capacity {
            self.capacity = next_power_of_two(needed);
            true
        } else {
            false
        }
    }
}

} // verus!
