//! Seeds for the TLS layer and for the network stack.

use vstd::prelude::*;

verus! {

/// The 64-bit value whose upper half is `hi` and whose lower half is `lo`.
pub open spec fn seed_of(hi: u32, lo: u32) -> int {
    hi as int * 0x1_0000_0000 + lo as int
}

/// Joins two independent 32-bit draws into one 64-bit seed: the first draw
/// fills the upper half, the second the lower half.
pub fn compose_seed(hi: u32, lo: u32) -> (seed: u64)
    ensures
        seed as int == seed_of(hi, lo),
        seed >> 32 == hi as u64,
        seed & 0xffff_ffff == lo as u64,
{
    let wide_hi: u64 = hi as u64;
    let wide_lo: u64 = lo as u64;
    let seed: u64 = (wide_hi << 32) | wide_lo;
    assert(((wide_hi << 32) | wide_lo) == wide_hi * 0x1_0000_0000 + wide_lo) by (bit_vector)
        requires
            wide_hi <= 0xffff_ffff,
            wide_lo <= 0xffff_ffff,
    ;
    assert(((wide_hi << 32) | wide_lo) >> 32 == wide_hi) by (bit_vector)
        requires
            wide_hi <= 0xffff_ffff,
            wide_lo <= 0xffff_ffff,
    ;
    assert(((wide_hi << 32) | wide_lo) & 0xffff_ffff == wide_lo) by (bit_vector)
        requires
            wide_hi <= 0xffff_ffff,
            wide_lo <= 0xffff_ffff,
    ;
    seed
}

} // verus!
