//! Extraction of bit ranges from one- and two-byte little-endian buffers.

use vstd::arithmetic::div_mod::{
    lemma_basic_div, lemma_div_decreases, lemma_mod_decreases, lemma_small_mod,
};
use vstd::arithmetic::power2::{lemma2_to64, lemma_pow2_pos, lemma_pow2_strictly_increases, pow2};
use vstd::bits::{
    lemma_u16_low_bits_mask_is_mod, lemma_u16_pow2_no_overflow, lemma_u16_shl_is_mul,
    lemma_u16_shr_is_div, lemma_u32_low_bits_mask_is_mod, lemma_u32_pow2_no_overflow,
    lemma_u32_shl_is_mul, lemma_u32_shr_is_div, low_bits_mask,
};
use vstd::prelude::*;

verus! {

/// The `width`-bit field that starts at bit `offset` of `value`, right-aligned.
///
/// Bits are counted from the least significant one. This is what
/// `(value >> offset) & ((1 << width) - 1)` computes on unbounded integers.
pub open spec fn field_at(value: nat, offset: nat, width: nat) -> nat {
    (value / pow2(offset)) % pow2(width)
}

/// Whether bit `index` of `value` is set.
pub open spec fn bit_at(value: nat, index: nat) -> bool {
    field_at(value, index, 1) == 1
}

/// The unsigned integer that two bytes spell in little-endian order.
pub open spec fn le16(low: u8, high: u8) -> nat {
    (low + 256 * high) as nat
}

/// The unsigned integer that three bytes spell in little-endian order.
pub open spec fn le24(low: u8, middle: u8, high: u8) -> nat {
    (low + 256 * middle + 65536 * high) as nat
}

/// A 16-bit pattern read as a two's-complement number.
pub open spec fn twos_complement(value: nat) -> int {
    if value < 0x8000 {
        value as int
    } else {
        value - 0x1_0000
    }
}

/// A field is smaller than two to the power of its width, and no larger than
/// the value it is taken from.
pub proof fn lemma_field_bounds(value: nat, offset: nat, width: nat)
    ensures
        field_at(value, offset, width) < pow2(width),
        field_at(value, offset, width) <= value,
{
    lemma_pow2_pos(offset);
    lemma_pow2_pos(width);
    let shifted = value / pow2(offset);
    assert(shifted <= value) by {
        if pow2(offset) == 1 {
        } else if value > 0 {
            lemma_div_decreases(value as int, pow2(offset) as int);
        }
    }
    lemma_mod_decreases(shifted, pow2(width));
    assert(shifted % pow2(width) < pow2(width)) by (nonlinear_arith)
        requires
            pow2(width) > 0,
    ;
}

/// A field whose offset lies at or beyond `bits`, the width of the value, is zero.
pub proof fn lemma_field_beyond(value: nat, bits: nat, offset: nat, width: nat)
    requires
        value < pow2(bits),
        bits <= offset,
    ensures
        field_at(value, offset, width) == 0,
{
    if bits < offset {
        lemma_pow2_strictly_increases(bits, offset);
    }
    lemma_basic_div(value as int, pow2(offset) as int);
    lemma_pow2_pos(width);
    lemma_small_mod(0, pow2(width));
}

/// Within a 16-bit value, a field is what shifting right by its offset and
/// masking to its width leaves. The shift and the mask are taken in 32 bits,
/// so that the mask of a field 16 bits wide can be written.
pub proof fn lemma_field_is_shift_and_mask(value: u16, offset: u32, width: u32)
    requires
        offset + width <= 16,
    ensures
        field_at(value as nat, offset as nat, width as nat) == ((value as u32) >> offset) & (((1u32
            << width) - 1) as u32),
        field_at(value as nat, offset as nat, width as nat) < pow2(width as nat),
{
    let wide: u32 = value as u32;
    let shifted: u32 = wide >> offset;
    lemma_u32_shr_is_div(wide, offset);
    lemma_u32_pow2_no_overflow(width as nat);
    lemma_u32_shl_is_mul(1, width);
    lemma_u32_low_bits_mask_is_mod(shifted, width as nat);
    lemma_field_bounds(value as nat, offset as nat, width as nat);
}

/// Shifting and masking a 16-bit value yields the field.
proof fn lemma_shift_mask_u16(value: u16, offset: u16, width: u16)
    requires
        offset < 16,
        width < 16,
    ensures
        ((value >> offset) & !(u16::MAX << width)) as nat == field_at(
            value as nat,
            offset as nat,
            width as nat,
        ),
{
    let shifted: u16 = value >> offset;
    let mask: u16 = !(u16::MAX << width);
    lemma_u16_shr_is_div(value, offset);
    lemma_u16_pow2_no_overflow(width as nat);
    lemma_u16_shl_is_mul(1, width);
    assert(mask == (1u16 << width) - 1) by (bit_vector)
        requires
            width < 16,
            mask == !(0xffffu16 << width),
    ;
    assert(mask == low_bits_mask(width as nat) as u16);
    lemma_u16_low_bits_mask_is_mod(shifted, width as nat);
}

/// A 16-bit value shifted right is already the field when the field is at
/// least as wide as the value.
proof fn lemma_shift_only_u16(value: u16, offset: u16, width: nat)
    requires
        offset < 16,
        width >= 16,
    ensures
        (value >> offset) as nat == field_at(value as nat, offset as nat, width),
{
    lemma_u16_shr_is_div(value, offset);
    lemma2_to64();
    if width > 16 {
        lemma_pow2_strictly_increases(16, width);
    }
    lemma_small_mod((value >> offset) as nat, pow2(width));
}

/// A buffer that bit fields can be read from.
///
/// `T` is the unsigned integer as wide as the buffer. A field lies within the
/// buffer: its offset and its width together do not exceed the buffer's width
/// in bits, and a field that reaches beyond it is refused when the call is
/// verified.
pub trait GetBits<T>: Sized {
    /// The width of the buffer in bits.
    spec fn width() -> nat;

    /// The buffer read as an unsigned little-endian integer.
    spec fn buffer(self) -> nat;

    /// The number that a field of type `T` stands for.
    spec fn number(field: T) -> nat;

    /// Extract the bit at index `I` from `self`.
    fn bit<const I: usize>(self) -> (r: bool)
        requires
            I < Self::width(),
        ensures
            r == bit_at(self.buffer(), I as nat),
    ;

    /// Extract `N` bits beginning at index `I` from `self`.
    fn bits<const I: usize, const N: usize>(self) -> (r: T)
        requires
            I + N <= Self::width(),
        ensures
            Self::number(r) == field_at(self.buffer(), I as nat, N as nat),
            Self::number(r) < pow2(N as nat),
    ;
}

impl GetBits<u16> for u16 {
    open spec fn width() -> nat {
        16
    }

    open spec fn buffer(self) -> nat {
        self as nat
    }

    open spec fn number(field: u16) -> nat {
        field as nat
    }

    fn bit<const I: usize>(self) -> (r: bool) {
        let low: u16 = self.bits::<I, 1>();
        proof {
            lemma2_to64();
        }
        low != 0
    }

    fn bits<const I: usize, const N: usize>(self) -> (r: u16) {
        proof {
            lemma_field_bounds(self as nat, I as nat, N as nat);
        }
        if I >= 16 {
            proof {
                lemma2_to64();
                lemma_field_beyond(self as nat, 16, I as nat, N as nat);
            }
            0
        } else {
            let offset: u16 = I as u16;
            let shifted: u16 = self >> offset;
            if N >= 16 {
                proof {
                    lemma_shift_only_u16(self, offset, N as nat);
                }
                shifted
            } else {
                let width: u16 = N as u16;
                proof {
                    lemma_shift_mask_u16(self, offset, width);
                }
                shifted & !(u16::MAX << width)
            }
        }
    }
}

impl GetBits<u8> for u8 {
    open spec fn width() -> nat {
        8
    }

    open spec fn buffer(self) -> nat {
        self as nat
    }

    open spec fn number(field: u8) -> nat {
        field as nat
    }

    fn bit<const I: usize>(self) -> (r: bool) {
        let low: u8 = self.bits::<I, 1>();
        proof {
            lemma2_to64();
        }
        low != 0
    }

    fn bits<const I: usize, const N: usize>(self) -> (r: u8) {
        let wide: u16 = self as u16;
        let field: u16 = wide.bits::<I, N>();
        proof {
            lemma_field_bounds(self as nat, I as nat, N as nat);
        }
        field as u8
    }
}

impl GetBits<u8> for [u8; 1] {
    open spec fn width() -> nat {
        8
    }

    open spec fn buffer(self) -> nat {
        self[0] as nat
    }

    open spec fn number(field: u8) -> nat {
        field as nat
    }

    fn bit<const I: usize>(self) -> (r: bool) {
        self[0].bit::<I>()
    }

    fn bits<const I: usize, const N: usize>(self) -> (r: u8) {
        self[0].bits::<I, N>()
    }
}

impl GetBits<u16> for [u8; 2] {
    open spec fn width() -> nat {
        16
    }

    open spec fn buffer(self) -> nat {
        le16(self[0], self[1])
    }

    open spec fn number(field: u16) -> nat {
        field as nat
    }

    fn bit<const I: usize>(self) -> (r: bool) {
        let raw: u16 = u16_from_le(self[0], self[1]);
        raw.bit::<I>()
    }

    fn bits<const I: usize, const N: usize>(self) -> (r: u16) {
        let raw: u16 = u16_from_le(self[0], self[1]);
        raw.bits::<I, N>()
    }
}

/// Join two bytes, least significant first, into a 16-bit integer.
pub fn u16_from_le(low: u8, high: u8) -> (r: u16)
    ensures
        r as nat == le16(low, high),
{
    let upper: u16 = high as u16 * 256;
    upper + low as u16
}

/// Join three bytes, least significant first, into a 32-bit integer.
pub fn u24_from_le(low: u8, middle: u8, high: u8) -> (r: u32)
    ensures
        r as nat == le24(low, middle, high),
{
    let upper: u32 = high as u32 * 65536;
    let inner: u32 = middle as u32 * 256;
    upper + inner + low as u32
}

/// Split a 16-bit integer into two bytes, least significant first.
pub fn u16_to_le(value: u16) -> (r: [u8; 2])
    ensures
        r[0] == value % 256,
        r[1] == value / 256,
        le16(r[0], r[1]) == value,
{
    let low: u8 = (value % 256) as u8;
    let high: u8 = (value / 256) as u8;
    [low, high]
}

/// Reinterpret an unsigned 16-bit value as a two's-complement number.
pub fn as_signed(raw: u16) -> (r: i16)
    ensures
        r == twos_complement(raw as nat),
{
    if raw < 0x8000 {
        raw as i16
    } else {
        (raw as i32 - 0x1_0000) as i16
    }
}

} // verus!
