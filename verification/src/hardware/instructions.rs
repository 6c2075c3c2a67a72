//! The instructions of the smaller machine.

use vstd::prelude::*;
use vstd::arithmetic::power2::{lemma2_to64, pow2};
use crate::decode::{
    imm5, lemma_sign_extend_bits, offset6, offset9, sign_extended, signed_field, wrap16,
};

pub mod add;
pub mod ld;
pub mod ldi;
pub mod ldr;
pub mod lea;
pub mod st;
pub mod sti;

verus! {

/// Extends the sign of a field of `bit_count` bits over the whole word.
///
/// Where bit `bit_count - 1` of `x` is set, every higher bit of the result
/// is set as well; otherwise the result is `x`. For an `x` that fits in
/// `bit_count` bits the result is the 16-bit two's-complement form of the
/// field's signed value.
pub fn sign_extend(x: u16, bit_count: u16) -> (extended: u16)
    requires
        1 <= bit_count < 16,
    ensures
        extended == sign_extended(x, bit_count as nat),
        x < pow2(bit_count as nat) ==> extended == wrap16(
            signed_field(x as int, bit_count as nat),
        ),
{
    proof {
        lemma_sign_extend_bits(x, bit_count);
    }
    let mut x: u16 = x;
    if (x >> (bit_count - 1)) & 1 == 1 {
        x |= 0xFFFFu16 << bit_count;
    }
    x
}

/// The immediate operand in bits 4 to 0, sign-extended to a word.
pub fn immediate_of(instr: u16) -> (word: u16)
    ensures
        word == wrap16(imm5(instr)),
{
    assert(instr & 0x1F == instr % 32) by (bit_vector);
    proof {
        lemma2_to64();
    }
    sign_extend(instr & 0x1F, 5)
}

/// The offset in bits 5 to 0, sign-extended to a word.
pub fn base_offset_of(instr: u16) -> (word: u16)
    ensures
        word == wrap16(offset6(instr)),
{
    assert(instr & 0x3F == instr % 64) by (bit_vector);
    proof {
        lemma2_to64();
    }
    sign_extend(instr & 0x3F, 6)
}

/// The offset in bits 8 to 0, sign-extended to a word.
pub fn pc_offset_of(instr: u16) -> (word: u16)
    ensures
        word == wrap16(offset9(instr)),
{
    assert(instr & 0x1FF == instr % 512) by (bit_vector);
    proof {
        lemma2_to64();
    }
    sign_extend(instr & 0x1FF, 9)
}

} // verus!
