//! Turning the host's random bytes into the number a draw works with.

use vstd::prelude::*;

verus! {

/// The subject handed to the host's randomness source with every request.
pub const RANDOM_SUBJECT: [u8; 8] = [70, 93, 3, 3, 15, 124, 148, 18];

/// The first four bytes of `bytes` read as one big-endian 32-bit number.
pub open spec fn be_u32(bytes: Seq<u8>) -> int {
    bytes[0] as int * 0x100_0000 + bytes[1] as int * 0x1_0000 + bytes[2] as int * 0x100
        + bytes[3] as int
}

/// Reads the first four bytes of the host's random output as a big-endian
/// number. Bytes after the fourth play no part.
pub fn as_u32_be(array: &[u8]) -> (value: u32)
    requires
        array@.len() >= 4,
    ensures
        value == be_u32(array@),
{
    let b0: u32 = array[0] as u32;
    let b1: u32 = array[1] as u32;
    let b2: u32 = array[2] as u32;
    let b3: u32 = array[3] as u32;
    assert(b0 << 24 == b0 * 0x100_0000 && b1 << 16 == b1 * 0x1_0000 && b2 << 8 == b2 * 0x100 && b3
        << 0 == b3) by (bit_vector)
        requires
            b0 < 256,
            b1 < 256,
            b2 < 256,
            b3 < 256,
    ;
    (b0 << 24) + (b1 << 16) + (b2 << 8) + (b3 << 0)
}

} // verus!
