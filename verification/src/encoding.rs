//! Fixed-width little-endian numbers.

use vstd::prelude::*;

verus! {

/// The `width` low-order base-256 digits of `value`, least significant first.
pub open spec fn le_bytes(value: nat, width: nat) -> Seq<u8>
    decreases width,
{
    if width == 0 {
        Seq::empty()
    } else {
        seq![(value % 256) as u8].add(le_bytes(value / 256, (width - 1) as nat))
    }
}

/// The number whose base-256 digits, least significant first, are `bytes`.
pub open spec fn le_value(bytes: Seq<u8>) -> nat
    decreases bytes.len(),
{
    if bytes.len() == 0 {
        0
    } else {
        bytes[0] as nat + 256 * le_value(bytes.drop_first())
    }
}

/// 256 to the power `width`.
pub open spec fn radix_power(width: nat) -> nat
    decreases width,
{
    if width == 0 {
        1
    } else {
        256 * radix_power((width - 1) as nat)
    }
}

/// An encoding has exactly the width asked for.
pub proof fn lemma_le_bytes_len(value: nat, width: nat)
    ensures
        le_bytes(value, width).len() == width,
    decreases width,
{
    if width > 0 {
        lemma_le_bytes_len(value / 256, (width - 1) as nat);
    }
}

/// Decoding an encoding gives the number back, as long as it fits the width.
pub proof fn lemma_le_round_trip(value: nat, width: nat)
    requires
        value < radix_power(width),
    ensures
        le_value(le_bytes(value, width)) == value,
    decreases width,
{
    if width > 0 {
        let rest = le_bytes(value / 256, (width - 1) as nat);
        let all = le_bytes(value, width);
        assert(all.drop_first() =~= rest);
        assert(value / 256 < radix_power((width - 1) as nat));
        lemma_le_round_trip(value / 256, (width - 1) as nat);
        assert(all[0] as nat == value % 256);
    }
}

/// Encoding a decoded sequence gives the sequence back.
pub proof fn lemma_le_value_bytes(bytes: Seq<u8>)
    ensures
        le_value(bytes) < radix_power(bytes.len()),
        le_bytes(le_value(bytes), bytes.len()) == bytes,
    decreases bytes.len(),
{
    if bytes.len() > 0 {
        let rest = bytes.drop_first();
        lemma_le_value_bytes(rest);
        let value = le_value(bytes);
        assert(value == bytes[0] as nat + 256 * le_value(rest));
        assert(value % 256 == bytes[0] as nat);
        assert(value / 256 == le_value(rest));
        assert(le_bytes(value, bytes.len()) =~= bytes);
    }
}

/// The four bytes of a `u32`, least significant first.
pub fn u32_to_le_bytes(value: u32) -> (bytes: [u8; 4])
    ensures
        bytes@ == le_bytes(value as nat, 4),
{
    let r1: u32 = value / 256;
    let r2: u32 = r1 / 256;
    let r3: u32 = r2 / 256;
    let bytes = [(value % 256) as u8, (r1 % 256) as u8, (r2 % 256) as u8, (r3 % 256) as u8];
    proof {
        reveal_with_fuel(le_bytes, 5);
        assert(bytes@ =~= le_bytes(value as nat, 4));
    }
    bytes
}

/// The eight bytes of a `u64`, least significant first.
pub fn u64_to_le_bytes(value: u64) -> (bytes: [u8; 8])
    ensures
        bytes@ == le_bytes(value as nat, 8),
{
    let r1: u64 = value / 256;
    let r2: u64 = r1 / 256;
    let r3: u64 = r2 / 256;
    let r4: u64 = r3 / 256;
    let r5: u64 = r4 / 256;
    let r6: u64 = r5 / 256;
    let r7: u64 = r6 / 256;
    let bytes = [
        (value % 256) as u8,
        (r1 % 256) as u8,
        (r2 % 256) as u8,
        (r3 % 256) as u8,
        (r4 % 256) as u8,
        (r5 % 256) as u8,
        (r6 % 256) as u8,
        (r7 % 256) as u8,
    ];
    proof {
        reveal_with_fuel(le_bytes, 9);
        assert(bytes@ =~= le_bytes(value as nat, 8));
    }
    bytes
}

/// The `u32` that four little-endian bytes stand for.
pub fn u32_from_le_bytes(bytes: &[u8; 4]) -> (value: u32)
    ensures
        value as nat == le_value(bytes@),
{
    proof {
        reveal_with_fuel(le_value, 5);
        let s = bytes@;
        assert(s.drop_first().drop_first().drop_first().drop_first().len() == 0);
        assert(s.drop_first()[0] == s[1]);
        assert(s.drop_first().drop_first()[0] == s[2]);
        assert(s.drop_first().drop_first().drop_first()[0] == s[3]);
    }
    let b0: u32 = bytes[0] as u32;
    let b1: u32 = bytes[1] as u32;
    let b2: u32 = bytes[2] as u32;
    let b3: u32 = bytes[3] as u32;
    b0 + 256 * (b1 + 256 * (b2 + 256 * b3))
}

/// The `u64` that eight little-endian bytes stand for.
pub fn u64_from_le_bytes(bytes: &[u8; 8]) -> (value: u64)
    ensures
        value as nat == le_value(bytes@),
{
    let mut value: u64 = 0;
    let mut i: usize = 8;
    while i > 0
        invariant
            i <= 8,
            value as nat == le_value(bytes@.subrange(i as int, 8)),
            value as nat <= radix_power((8 - i) as nat) - 1,
        decreases i,
    {
        i = i - 1;
        let digit: u64 = bytes[i] as u64;
        proof {
            let tail = bytes@.subrange(i as int, 8);
            assert(tail.drop_first() =~= bytes@.subrange(i as int + 1, 8));
            assert(tail[0] == bytes@[i as int]);
            reveal_with_fuel(radix_power, 9);
        }
        value = digit + 256 * value;
    }
    proof {
        assert(bytes@.subrange(0, 8) =~= bytes@);
    }
    value
}

} // verus!
