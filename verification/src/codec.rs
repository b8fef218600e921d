//! The byte layouts of integers: what a number looks like on disk, and back.
//!
//! An unsigned integer of `width` bytes is written least significant byte first
//! ([`le_bytes`]) and read back by [`le_value`]. The record identifiers alone are written
//! most significant byte first ([`be_bytes`]). A signed 64-bit integer is written as the
//! unsigned integer that has the same two's complement bits ([`i64_bits`]).

use vstd::prelude::*;

verus! {

/// 256 to the power of `n`: the number of values that `n` bytes can hold.
pub open spec fn pow256(n: nat) -> nat
    decreases n,
{
    if n == 0 {
        1
    } else {
        256 * pow256((n - 1) as nat)
    }
}

/// The `width` low bytes of `x`, least significant byte first.
pub open spec fn le_bytes(x: nat, width: nat) -> Seq<u8>
    decreases width,
{
    if width == 0 {
        Seq::empty()
    } else {
        seq![(x % 256) as u8] + le_bytes(x / 256, (width - 1) as nat)
    }
}

/// The number that `bytes` hold, least significant byte first.
pub open spec fn le_value(bytes: Seq<u8>) -> nat
    decreases bytes.len(),
{
    if bytes.len() == 0 {
        0
    } else {
        bytes[0] as nat + 256 * le_value(bytes.skip(1))
    }
}

/// The `width` low bytes of `x`, most significant byte first.
pub open spec fn be_bytes(x: nat, width: nat) -> Seq<u8> {
    le_bytes(x, width).reverse()
}

/// The number that `bytes` hold, most significant byte first.
pub open spec fn be_value(bytes: Seq<u8>) -> nat {
    le_value(bytes.reverse())
}

/// The unsigned number with the two's complement bits of `x`.
pub open spec fn i64_bits(x: i64) -> nat {
    if x >= 0 {
        x as nat
    } else {
        (x + 0x1_0000_0000_0000_0000) as nat
    }
}

/// The signed number with the two's complement bits of `bits`.
pub open spec fn i64_of_bits(bits: nat) -> i64 {
    if bits < 0x8000_0000_0000_0000 {
        bits as i64
    } else {
        (bits - 0x1_0000_0000_0000_0000) as i64
    }
}

/// The powers of 256 that bound the integers of one, four and eight bytes.
pub proof fn lemma_pow256_values()
    ensures
        pow256(0) == 1,
        pow256(1) == 0x100,
        pow256(4) == 0x1_0000_0000,
        pow256(8) == 0x1_0000_0000_0000_0000,
{
    reveal_with_fuel(pow256, 9);
}

/// More bytes hold more values.
pub proof fn lemma_pow256_monotonic(a: nat, b: nat)
    requires
        a <= b,
    ensures
        pow256(a) <= pow256(b),
        pow256(a) >= 1,
    decreases b,
{
    if b == 0 {
    } else if a == b {
        lemma_pow256_monotonic(0, (b - 1) as nat);
    } else {
        lemma_pow256_monotonic(a, (b - 1) as nat);
    }
}

/// An encoding has as many bytes as were asked for.
pub proof fn lemma_le_bytes_len(x: nat, width: nat)
    ensures
        le_bytes(x, width).len() == width,
    decreases width,
{
    if width > 0 {
        lemma_le_bytes_len(x / 256, (width - 1) as nat);
    }
}

/// What `n` bytes hold is below 256 to the power of `n`.
pub proof fn lemma_le_value_bound(bytes: Seq<u8>)
    ensures
        le_value(bytes) < pow256(bytes.len()),
    decreases bytes.len(),
{
    if bytes.len() > 0 {
        lemma_le_value_bound(bytes.skip(1));
    }
}

/// Reading back what was written gives the number, if the number fits the width.
pub proof fn lemma_le_value_of_bytes(x: nat, width: nat)
    requires
        x < pow256(width),
    ensures
        le_value(le_bytes(x, width)) == x,
    decreases width,
{
    if width > 0 {
        let tail = le_bytes(x / 256, (width - 1) as nat);
        lemma_le_value_of_bytes(x / 256, (width - 1) as nat);
        lemma_le_bytes_len(x / 256, (width - 1) as nat);
        assert(le_bytes(x, width).skip(1) =~= tail);
    }
}

/// Writing what was read gives back the bytes.
pub proof fn lemma_le_bytes_of_value(bytes: Seq<u8>)
    ensures
        le_bytes(le_value(bytes), bytes.len()) == bytes,
    decreases bytes.len(),
{
    if bytes.len() > 0 {
        lemma_le_bytes_of_value(bytes.skip(1));
        let v = le_value(bytes);
        assert(v % 256 == bytes[0] as nat);
        assert(v / 256 == le_value(bytes.skip(1)));
        assert(le_bytes(v, bytes.len()) =~= bytes);
    } else {
        assert(le_bytes(le_value(bytes), bytes.len()) =~= bytes);
    }
}

/// The same holds most significant byte first.
pub proof fn lemma_be_value_of_bytes(x: nat, width: nat)
    requires
        x < pow256(width),
    ensures
        be_bytes(x, width).len() == width,
        be_value(be_bytes(x, width)) == x,
{
    lemma_le_bytes_len(x, width);
    lemma_le_value_of_bytes(x, width);
    assert(le_bytes(x, width).reverse().reverse() =~= le_bytes(x, width));
}

/// Bits and signed number determine each other.
pub proof fn lemma_i64_bits_round_trip(x: i64)
    ensures
        i64_bits(x) < pow256(8),
        i64_of_bits(i64_bits(x)) == x,
{
    lemma_pow256_values();
}

/// Returns the `width` low bytes of `x`, least significant byte first.
pub fn encode_le(x: u64, width: usize) -> (v: Vec<u8>)
    ensures
        v@ == le_bytes(x as nat, width as nat),
        v@.len() == width,
{
    let mut v: Vec<u8> = Vec::new();
    let mut rest: u64 = x;
    let mut i: usize = 0;
    while i < width
        invariant
            i <= width,
            v@.len() == i,
            le_bytes(x as nat, width as nat) == v@ + le_bytes(rest as nat, (width - i) as nat),
        decreases width - i,
    {
        let ghost before = v@;
        let byte: u8 = (rest % 256) as u8;
        v.push(byte);
        proof {
            let tail = le_bytes((rest / 256) as nat, (width - i - 1) as nat);
            assert(before + (seq![byte] + tail) =~= v@ + tail);
        }
        rest = rest / 256;
        i = i + 1;
    }
    proof {
        assert(v@ + Seq::<u8>::empty() =~= v@);
    }
    v
}

/// Returns the `width` low bytes of `x`, most significant byte first.
pub fn encode_be(x: u64, width: usize) -> (v: Vec<u8>)
    ensures
        v@ == be_bytes(x as nat, width as nat),
        v@.len() == width,
{
    let le = encode_le(x, width);
    let mut v: Vec<u8> = Vec::new();
    let mut i: usize = 0;
    while i < width
        invariant
            i <= width,
            le@.len() == width,
            v@.len() == i,
            forall|j: int| 0 <= j < i ==> v@[j] == le@[width - 1 - j],
        decreases width - i,
    {
        v.push(le[width - 1 - i]);
        i = i + 1;
    }
    proof {
        assert(v@ =~= le@.reverse());
    }
    v
}

/// Returns the number that the `width` bytes of `data` from `start` on hold, least
/// significant byte first.
pub fn decode_le(data: &[u8], start: usize, width: usize) -> (x: u64)
    requires
        width <= 8,
        start + width <= data@.len(),
    ensures
        x == le_value(data@.subrange(start as int, start + width)),
{
    let len: usize = data.len();
    let mut x: u64 = 0;
    let mut i: usize = width;
    while i > 0
        invariant
            i <= width <= 8,
            start + width <= data@.len() == len,
            x == le_value(data@.subrange(start + i, start + width)),
        decreases i,
    {
        let ghost tail = data@.subrange(start + i, start + width);
        let ghost whole = data@.subrange(start + i - 1, start + width);
        proof {
            lemma_le_value_bound(tail);
            lemma_pow256_monotonic((width - i + 1) as nat, 8);
            lemma_pow256_values();
            assert(whole.skip(1) =~= tail);
        }
        i = i - 1;
        x = x * 256 + data[start + i] as u64;
    }
    proof {
        assert(data@.subrange(start + width, start + width) =~= Seq::<u8>::empty());
    }
    x
}

/// Returns the number that the `width` bytes of `data` from `start` on hold, most
/// significant byte first.
pub fn decode_be(data: &[u8], start: usize, width: usize) -> (x: u64)
    requires
        width <= 8,
        start + width <= data@.len(),
    ensures
        x == be_value(data@.subrange(start as int, start + width)),
{
    let ghost bytes = data@.subrange(start as int, start + width);
    let len: usize = data.len();
    let mut x: u64 = 0;
    let mut i: usize = 0;
    while i < width
        invariant
            i <= width <= 8,
            start + width <= data@.len() == len,
            bytes == data@.subrange(start as int, start + width),
            x == le_value(bytes.reverse().subrange(width - i, width as int)),
        decreases width - i,
    {
        let ghost tail = bytes.reverse().subrange(width - i, width as int);
        let ghost whole = bytes.reverse().subrange(width - i - 1, width as int);
        proof {
            lemma_le_value_bound(tail);
            lemma_pow256_monotonic((i + 1) as nat, 8);
            lemma_pow256_values();
            assert(whole.skip(1) =~= tail);
            assert(whole[0] == data@[start + i]);
        }
        x = x * 256 + data[start + i] as u64;
        i = i + 1;
    }
    proof {
        assert(bytes.reverse().subrange(0, width as int) =~= bytes.reverse());
    }
    x
}

/// Returns the unsigned number with the two's complement bits of `x`.
pub fn i64_to_bits(x: i64) -> (bits: u64)
    ensures
        bits == i64_bits(x),
{
    if x >= 0 {
        x as u64
    } else {
        ((x - i64::MIN) as u64) + 0x8000_0000_0000_0000u64
    }
}

/// Returns the signed number with the two's complement bits of `bits`.
pub fn i64_from_bits(bits: u64) -> (x: i64)
    ensures
        x == i64_of_bits(bits as nat),
{
    if bits < 0x8000_0000_0000_0000u64 {
        bits as i64
    } else {
        ((bits - 0x8000_0000_0000_0000u64) as i64) + i64::MIN
    }
}

} // verus!
