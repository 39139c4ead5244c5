//! The sum that protects the clock block of a device.

use vstd::prelude::*;

verus! {

/// The first year that a device can store: it keeps the years since then in
/// one byte.
pub const YEAR: u16 = 2000;

/// The last year that a device can store.
pub const YEAR_MAX: u16 = 2255;

/// Sum of the bytes of `s`.
pub open spec fn byte_sum(s: Seq<u8>) -> nat
    decreases s.len(),
{
    if s.len() == 0 {
        0
    } else {
        byte_sum(s.drop_last()) + s.last() as nat
    }
}

/// The checksum of a clock block: the sum of its bytes modulo 256.
pub open spec fn block_sum(s: Seq<u8>) -> u8 {
    (byte_sum(s) % 256) as u8
}

/// The checksum of the first `n` bytes of `block`.
pub fn sum_bytes(block: &[u8], n: usize) -> (sum: u8)
    requires
        n <= block@.len(),
    ensures
        sum == block_sum(block@.take(n as int)),
{
    let mut sum: u8 = 0;
    let mut i: usize = 0;
    while i < n
        invariant
            i <= n <= block@.len(),
            sum == block_sum(block@.take(i as int)),
        decreases n - i,
    {
        assert(block@.take(i + 1).drop_last() =~= block@.take(i as int));
        sum = sum.wrapping_add(block[i]);
        i += 1;
    }
    sum
}

} // verus!
