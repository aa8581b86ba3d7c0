//! Little-endian layout of the figures that a market reveals.

use vstd::prelude::*;

verus! {

/// 256 to the power `k`.
pub open spec fn pow256(k: nat) -> nat
    decreases k,
{
    if k == 0 {
        1
    } else {
        256 * pow256((k - 1) as nat)
    }
}

/// Byte `k` of `x`, counting from the least significant.
pub open spec fn le_digit(x: nat, k: nat) -> u8 {
    ((x / pow256(k)) % 256) as u8
}

/// The `width` least significant bytes of `x`, least significant first.
pub open spec fn le_bytes(x: nat, width: nat) -> Seq<u8> {
    Seq::new(width, |k: int| le_digit(x, k as nat))
}

/// The powers of 256 that a `u64` reaches.
pub proof fn lemma_pow256_values()
    ensures
        pow256(0) == 1,
        pow256(1) == 0x100,
        pow256(2) == 0x1_0000,
        pow256(3) == 0x100_0000,
        pow256(4) == 0x1_0000_0000,
        pow256(5) == 0x100_0000_0000,
        pow256(6) == 0x1_0000_0000_0000,
        pow256(7) == 0x100_0000_0000_0000,
{
    assert(pow256(0) == 1);
    assert(pow256(1) == 256 * pow256(0));
    assert(pow256(2) == 256 * pow256(1));
    assert(pow256(3) == 256 * pow256(2));
    assert(pow256(4) == 256 * pow256(3));
    assert(pow256(5) == 256 * pow256(4));
    assert(pow256(6) == 256 * pow256(5));
    assert(pow256(7) == 256 * pow256(6));
}

/// The four bytes of `x`, least significant first.
pub fn u32_le_bytes(x: u32) -> (bytes: [u8; 4])
    ensures
        bytes@ == le_bytes(x as nat, 4),
{
    let bytes: [u8; 4] = [
        (x % 256) as u8,
        ((x / 0x100) % 256) as u8,
        ((x / 0x1_0000) % 256) as u8,
        ((x / 0x100_0000) % 256) as u8,
    ];
    proof {
        lemma_pow256_values();
        assert(bytes@[0] == le_digit(x as nat, 0));
        assert(bytes@[1] == le_digit(x as nat, 1));
        assert(bytes@[2] == le_digit(x as nat, 2));
        assert(bytes@[3] == le_digit(x as nat, 3));
        assert(bytes@ =~= le_bytes(x as nat, 4));
    }
    bytes
}

/// The eight bytes of `x`, least significant first.
pub fn u64_le_bytes(x: u64) -> (bytes: [u8; 8])
    ensures
        bytes@ == le_bytes(x as nat, 8),
{
    let bytes: [u8; 8] = [
        (x % 256) as u8,
        ((x / 0x100) % 256) as u8,
        ((x / 0x1_0000) % 256) as u8,
        ((x / 0x100_0000) % 256) as u8,
        ((x / 0x1_0000_0000) % 256) as u8,
        ((x / 0x100_0000_0000) % 256) as u8,
        ((x / 0x1_0000_0000_0000) % 256) as u8,
        ((x / 0x100_0000_0000_0000) % 256) as u8,
    ];
    proof {
        lemma_pow256_values();
        assert(bytes@[0] == le_digit(x as nat, 0));
        assert(bytes@[1] == le_digit(x as nat, 1));
        assert(bytes@[2] == le_digit(x as nat, 2));
        assert(bytes@[3] == le_digit(x as nat, 3));
        assert(bytes@[4] == le_digit(x as nat, 4));
        assert(bytes@[5] == le_digit(x as nat, 5));
        assert(bytes@[6] == le_digit(x as nat, 6));
        assert(bytes@[7] == le_digit(x as nat, 7));
        assert(bytes@ =~= le_bytes(x as nat, 8));
    }
    bytes
}

} // verus!
