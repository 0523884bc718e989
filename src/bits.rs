//! Bit extraction on bytes and words.
use vstd::prelude::*;

verus! {

/// Bit `i` of a byte.
pub open spec fn bit8(v: u8, i: u8) -> bool {
    (v >> i) & 1 == 1
}

/// Bit `i` of a word.
pub open spec fn bit16(v: u16, i: u8) -> bool {
    (v >> i) & 1 == 1
}

/// Reading a single bit of an unsigned integer.
pub trait BitExtract: Sized {
    /// The number of bits of the type.
    spec fn width() -> nat;

    /// Whether bit `i` of `self` is set.
    spec fn spec_bit(self, i: u8) -> bool;

    fn bit(self, i: u8) -> (r: bool)
        requires
            (i as nat) < Self::width(),
        ensures
            r == self.spec_bit(i),
    ;
}

impl BitExtract for u8 {
    open spec fn width() -> nat {
        8
    }

    open spec fn spec_bit(self, i: u8) -> bool {
        bit8(self, i)
    }

    fn bit(self, i: u8) -> (r: bool) {
        (self >> i) & 1 == 1
    }
}

impl BitExtract for u16 {
    open spec fn width() -> nat {
        16
    }

    open spec fn spec_bit(self, i: u8) -> bool {
        bit16(self, i)
    }

    fn bit(self, i: u8) -> (r: bool) {
        (self >> i) & 1 == 1
    }
}

/// Shifting a word right never makes it larger.
pub proof fn lemma_shr_le(x: u16, s: u8)
    ensures
        x >> s <= x,
{
    assert(x >> s <= x) by (bit_vector);
}

/// A byte is the sum of its bits.
pub proof fn lemma_byte_bits(v: u8)
    ensures
        v == (v / 128) % 2 * 128 + (v / 64) % 2 * 64 + (v / 32) % 2 * 32 + (v / 16) % 2 * 16 + (v
            / 8) % 2 * 8 + (v / 4) % 2 * 4 + (v / 2) % 2 * 2 + v % 2,
{
    assert(v == (v / 128) % 2 * 128 + (v / 64) % 2 * 64 + (v / 32) % 2 * 32 + (v / 16) % 2 * 16
        + (v / 8) % 2 * 8 + (v / 4) % 2 * 4 + (v / 2) % 2 * 2 + v % 2) by (bit_vector);
}

/// Masking with one leaves zero or one.
pub proof fn lemma_and_one_le(x: u8)
    ensures
        x & 1 <= 1,
{
    assert(x & 1 <= 1) by (bit_vector);
}

/// Setting the top three bits of a byte leaves them set.
pub proof fn lemma_or_high3(x: u8)
    ensures
        (x | 0xe0) & 0xe0 == 0xe0,
{
    assert((x | 0xe0) & 0xe0 == 0xe0) by (bit_vector);
}

/// A bit below 5 that is set makes the low five bits nonzero.
pub proof fn lemma_low5_set(x: u8, i: u8)
    requires
        i < 5,
        (x >> i) & 1 == 1,
    ensures
        x & 0x1f != 0,
{
    assert(i < 5 && (x >> i) & 1 == 1 ==> x & 0x1f != 0) by (bit_vector);
}

/// When bits 0 to 4 are all clear, so are the low five bits.
pub proof fn lemma_low5_clear(x: u8)
    requires
        forall|j: u8| j < 5 ==> (x >> j) & 1 == 0,
    ensures
        x & 0x1f == 0,
{
    assert((x >> 0u8) & 1 == 0);
    assert((x >> 1u8) & 1 == 0);
    assert((x >> 2u8) & 1 == 0);
    assert((x >> 3u8) & 1 == 0);
    assert((x >> 4u8) & 1 == 0);
    assert((x >> 0u8) & 1 == 0 && (x >> 1u8) & 1 == 0 && (x >> 2u8) & 1 == 0 && (x >> 3u8) & 1 == 0
        && (x >> 4u8) & 1 == 0 ==> x & 0x1f == 0) by (bit_vector);
}

/// The low seven bits of a byte split as a 3-bit, a 1-bit and a 3-bit field.
pub proof fn lemma_split_low7(v: u8)
    ensures
        v % 128 == (v / 16 % 8) * 16 + (v / 8 % 2) * 8 + v % 8,
{
    assert(v % 128 == (v / 16 % 8) * 16 + (v / 8 % 2) * 8 + v % 8) by (bit_vector);
}

/// A byte split as a 4-bit, a 1-bit and a 3-bit field.
pub proof fn lemma_split_4_1_3(v: u8)
    ensures
        v == (v / 16) * 16 + (v / 8 % 2) * 8 + v % 8,
{
    assert(v == (v / 16) * 16 + (v / 8 % 2) * 8 + v % 8) by (bit_vector);
}

/// A byte split as 1-bit, 3-bit, 1-bit and 3-bit fields.
pub proof fn lemma_split_1_3_1_3(v: u8)
    ensures
        v == (v / 128) * 128 + (v / 16 % 8) * 16 + (v / 8 % 2) * 8 + v % 8,
{
    assert(v == (v / 128) * 128 + (v / 16 % 8) * 16 + (v / 8 % 2) * 8 + v % 8) by (bit_vector);
}

/// Setting the same bits twice is setting them once.
pub proof fn lemma_or_twice(x: u8, m: u8)
    ensures
        (x | m) | m == x | m,
{
    assert((x | m) | m == x | m) by (bit_vector);
}

/// No bit of zero is set.
pub proof fn lemma_zero_bit16(i: u8)
    ensures
        !bit16(0, i),
{
    assert((0u16 >> i) & 1 != 1) by (bit_vector);
}

/// The single-bit masks of the interrupt sources.
pub proof fn lemma_source_masks()
    ensures
        1u8 << 0u8 == 1 && 1u8 << 1u8 == 2 && 1u8 << 2u8 == 4 && 1u8 << 3u8 == 8 && 1u8 << 4u8 == 16,
{
    assert(1u8 << 0u8 == 1 && 1u8 << 1u8 == 2 && 1u8 << 2u8 == 4 && 1u8 << 3u8 == 8 && 1u8 << 4u8
        == 16) by (bit_vector);
}

/// Bit `i` (below 5) of `p` is the bit of mask `1 << i` in the low five bits.
pub proof fn lemma_pending_bit(p: u8, i: u8)
    requires
        i < 5,
    ensures
        ((p >> i) & 1 == 1) == (((p & 0x1f) & (1u8 << i)) != 0),
{
    assert(i < 5 ==> (((p >> i) & 1 == 1) == (((p & 0x1f) & (1u8 << i)) != 0))) by (bit_vector);
}

/// Clearing a one-bit mask leaves it clear.
pub proof fn lemma_clear_mask(f: u8, i: u8)
    requires
        i < 5,
    ensures
        (f & !(1u8 << i)) & (1u8 << i) == 0,
{
    assert(i < 5 ==> (f & !(1u8 << i)) & (1u8 << i) == 0) by (bit_vector);
}

} // verus!
