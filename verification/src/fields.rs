//! Bit fields of a 32-bit register value.
use vstd::prelude::*;
use vstd::arithmetic::power2::{lemma_pow2_adds, lemma_pow2_pos, pow2};
use vstd::bits::{lemma_u32_low_bits_mask_is_mod, lemma_u32_shr_is_div, low_bits_mask};

verus! {

/// How a field's value is written out.
#[derive(Copy, Clone, Eq, PartialEq, Debug, Structural)]
pub enum FieldStyle {
    /// One bit, shown as 0 or 1.
    Flag,
    /// Unsigned decimal.
    Decimal,
    /// Hexadecimal.
    Hex,
}

/// A named range of bits, `msb` down to `lsb`, both counted from bit 0.
#[derive(Copy, Clone, Debug)]
pub struct BitField {
    pub name: &'static str,
    pub msb: u8,
    pub lsb: u8,
    pub style: FieldStyle,
    /// Whether the field belongs to the register's short summary.
    pub brief: bool,
}

/// A one-bit field.
#[verifier::allow_in_spec]
pub fn flag(name: &'static str, bit: u8, brief: bool) -> BitField
    returns
        (BitField { name, msb: bit, lsb: bit, style: FieldStyle::Flag, brief }),
{
    BitField { name, msb: bit, lsb: bit, style: FieldStyle::Flag, brief }
}

/// A field of several bits.
#[verifier::allow_in_spec]
pub fn bits(name: &'static str, msb: u8, lsb: u8, style: FieldStyle, brief: bool) -> BitField
    returns
        (BitField { name, msb, lsb, style, brief }),
{
    BitField { name, msb, lsb, style, brief }
}

/// The bits `msb` down to `lsb` of `data`, moved down to bit 0; 0 where the
/// range is empty or leaves the word.
pub open spec fn field_bits(data: u32, msb: u8, lsb: u8) -> u32 {
    if lsb <= msb && msb <= 31 {
        ((data >> (lsb as u32)) & ((0xFFFF_FFFFu32 >> ((31 - (msb - lsb)) as u32)))) as u32
    } else {
        0
    }
}

/// Extracts the bits `msb` down to `lsb` of `data`.
pub fn extract(data: u32, msb: u8, lsb: u8) -> (r: u32)
    ensures
        r == field_bits(data, msb, lsb),
        lsb <= msb <= 31 ==> r == (data as nat / pow2(lsb as nat)) % pow2((msb - lsb + 1) as nat),
{
    if lsb <= msb && msb <= 31 {
        proof {
            lemma_field_bits_is_div_mod(data, msb, lsb);
        }
        let drop: u32 = (31 - (msb - lsb)) as u32;
        (data >> (lsb as u32)) & (0xFFFF_FFFFu32 >> drop)
    } else {
        0
    }
}

/// The mask of the `width` lowest bits is `2^width - 1`.
proof fn lemma_mask_is_low_bits(width: u32)
    requires
        1 <= width <= 32,
    ensures
        (0xFFFF_FFFFu32 >> ((32 - width) as u32)) == low_bits_mask(width as nat),
{
    let shift = (32 - width) as u32;
    lemma_u32_shr_is_div(0xFFFF_FFFFu32, shift);
    lemma_pow2_adds(width as nat, shift as nat);
    lemma_pow2_pos(width as nat);
    lemma_pow2_pos(shift as nat);
    vstd::arithmetic::power2::lemma2_to64();
    let a = pow2(width as nat) as int;
    let b = pow2(shift as nat) as int;
    assert(a * b == 0x1_0000_0000);
    assert((a * b - 1) / b == a - 1) by (nonlinear_arith)
        requires
            a >= 1,
            b >= 1,
    ;
}

/// A field is the word divided by `2^lsb`, taken modulo two to the number
/// of its bits.
pub proof fn lemma_field_bits_is_div_mod(data: u32, msb: u8, lsb: u8)
    requires
        lsb <= msb <= 31,
    ensures
        field_bits(data, msb, lsb) == (data as nat / pow2(lsb as nat)) % pow2(
            (msb - lsb + 1) as nat,
        ),
{
    let width = (msb - lsb + 1) as u32;
    let shifted = data >> (lsb as u32);
    lemma_u32_shr_is_div(data, lsb as u32);
    lemma_mask_is_low_bits(width);
    vstd::arithmetic::power2::lemma2_to64();
    if width == 32 {
        assert(shifted & 0xFFFF_FFFFu32 == shifted) by (bit_vector);
        let one = pow2(0);
        let top = pow2(32);
        assert((data as nat / one) % top == data) by (nonlinear_arith)
            requires
                one == 1,
                top == 0x1_0000_0000,
                data < 0x1_0000_0000,
        ;
    } else {
        lemma_u32_low_bits_mask_is_mod(shifted, width as nat);
        vstd::bits::lemma_u32_pow2_no_overflow(width as nat);
    }
}

} // verus!
