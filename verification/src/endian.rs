//! Byte order: wire order is least-significant byte first, display order is
//! most-significant byte first.

use vstd::prelude::*;

verus! {

/// Byte `i` of the little-endian encoding of `value`: bits `8 * i` to
/// `8 * i + 7`.
pub open spec fn le_byte(value: u32, i: int) -> u8 {
    ((value >> ((8 * i) as u32)) & 0xff) as u8
}

/// The number that four bytes stand for when read least-significant first.
pub open spec fn le_value(bytes: Seq<u8>) -> int {
    bytes[0] + 0x100 * bytes[1] + 0x1_0000 * bytes[2] + 0x100_0000 * bytes[3]
}

/// Returns the bytes in the opposite order, turning wire order into display
/// order and back.
pub fn to_big_endian(bytes: &[u8]) -> (reversed: Vec<u8>)
    ensures
        reversed@ == bytes@.reverse(),
{
    let n: usize = bytes.len();
    let mut reversed: Vec<u8> = Vec::with_capacity(n);
    let mut i: usize = n;
    while i > 0
        invariant
            n == bytes@.len(),
            i <= n,
            reversed@.len() == n - i,
            forall|k: int| 0 <= k < n - i ==> reversed@[k] == bytes@[n - 1 - k],
        decreases i,
    {
        i = i - 1;
        reversed.push(bytes[i]);
    }
    reversed
}

/// Encodes `num` as its four little-endian bytes.
///
/// Despite the name, nothing is swapped against another byte order: the
/// result is the plain little-endian encoding of the number, whatever the
/// machine's own byte order.
pub fn swap_endian_u32(num: u32) -> (bytes: [u8; 4])
    ensures
        bytes@.len() == 4,
        forall|i: int| 0 <= i < 4 ==> bytes@[i] == le_byte(num, i),
        bytes@[0] == num & 0xff,
        le_value(bytes@) == num,
{
    assert((num & 0xff) < 0x100 && ((num >> 8) & 0xff) < 0x100 && ((num >> 16) & 0xff) < 0x100
        && ((num >> 24) & 0xff) < 0x100) by (bit_vector);
    assert((num & 0xff) + 0x100 * ((num >> 8) & 0xff) + 0x1_0000 * ((num >> 16) & 0xff)
        + 0x100_0000 * ((num >> 24) & 0xff) == num) by (bit_vector);
    assert(num >> 0 == num) by (bit_vector);
    let bytes: [u8; 4] = [
        (num & 0xff) as u8,
        ((num >> 8) & 0xff) as u8,
        ((num >> 16) & 0xff) as u8,
        ((num >> 24) & 0xff) as u8,
    ];
    assert forall|i: int| 0 <= i < 4 implies bytes@[i] == le_byte(num, i) by {
        assert(i == 0 || i == 1 || i == 2 || i == 3);
    }
    bytes
}

/// Reversing a byte sequence twice gives the sequence back.
pub proof fn reverse_is_involution(bytes: Seq<u8>)
    ensures
        bytes.reverse().reverse() == bytes,
{
    assert(bytes.reverse().reverse() =~= bytes);
}

/// Reversal keeps the length and moves the byte at `i` to the mirrored place.
pub proof fn reverse_mirrors(bytes: Seq<u8>, i: int)
    requires
        0 <= i < bytes.len(),
    ensures
        bytes.reverse().len() == bytes.len(),
        bytes.reverse()[i] == bytes[bytes.len() - 1 - i],
{
}

} // verus!
