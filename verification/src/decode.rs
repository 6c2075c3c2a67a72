//! Instruction fields and sign extension.
//!
//! An instruction is a 16-bit word. Its fields are stated here as plain
//! arithmetic on the word's value; the executable functions read them with
//! shifts and masks and are proved to agree.

use vstd::prelude::*;
use vstd::arithmetic::power2::{pow2, lemma2_to64};
use vstd::bits::lemma_u32_shl_is_mul;
use vstd::arithmetic::div_mod::lemma_small_mod;

verus! {

/// The word that stands for the integer `x`: `x` modulo 65536.
pub open spec fn wrap16(x: int) -> u16 {
    (x % 0x1_0000) as u16
}

/// The low `bits` bits of `value`, read as a two's-complement number.
pub open spec fn signed_field(value: int, bits: nat) -> int
    recommends
        bits >= 1,
{
    let low = value % (pow2(bits) as int);
    if low >= pow2((bits - 1) as nat) {
        low - pow2(bits)
    } else {
        low
    }
}

/// `value` with every bit above bit `bits - 1` set, where bit `bits - 1` is
/// set; `value` itself where it is clear.
pub open spec fn sign_extended(value: u16, bits: nat) -> u16
    recommends
        1 <= bits < 16,
{
    let low = value as int % (pow2(bits) as int);
    if low >= pow2((bits - 1) as nat) {
        (low + 0x1_0000 - pow2(bits)) as u16
    } else {
        value
    }
}

/// Bits 11 to 9: the destination or source register.
pub open spec fn dest_field(instr: u16) -> int {
    (instr as int / 512) % 8
}

/// Bits 8 to 6: the first source or the base register.
pub open spec fn base_field(instr: u16) -> int {
    (instr as int / 64) % 8
}

/// Bits 2 to 0: the second source register.
pub open spec fn src2_field(instr: u16) -> int {
    instr as int % 8
}

/// Bit 5: whether ADD and AND take their second operand from the word.
pub open spec fn immediate_mode(instr: u16) -> bool {
    (instr as int / 32) % 2 == 1
}

/// Bit 11.
pub open spec fn bit11(instr: u16) -> bool {
    (instr as int / 2048) % 2 == 1
}

/// Bit 10.
pub open spec fn bit10(instr: u16) -> bool {
    (instr as int / 1024) % 2 == 1
}

/// Bit 9.
pub open spec fn bit9(instr: u16) -> bool {
    (instr as int / 512) % 2 == 1
}

/// Bits 4 to 0 as a signed number, from -16 to 15.
pub open spec fn imm5(instr: u16) -> int {
    let low = instr as int % 32;
    if low >= 16 {
        low - 32
    } else {
        low
    }
}

/// Bits 5 to 0 as a signed number, from -32 to 31.
pub open spec fn offset6(instr: u16) -> int {
    let low = instr as int % 64;
    if low >= 32 {
        low - 64
    } else {
        low
    }
}

/// Bits 8 to 0 as a signed number, from -256 to 255.
pub open spec fn offset9(instr: u16) -> int {
    let low = instr as int % 512;
    if low >= 256 {
        low - 512
    } else {
        low
    }
}

/// Bits 10 to 0 as a signed number, from -1024 to 1023.
pub open spec fn offset11(instr: u16) -> int {
    let low = instr as int % 2048;
    if low >= 1024 {
        low - 2048
    } else {
        low
    }
}

/// Bits 7 to 0: the trap vector.
pub open spec fn trap_vector(instr: u16) -> int {
    instr as int % 256
}

/// Bits 15 to 12: the number of the opcode.
pub open spec fn opcode_field(instr: u16) -> int {
    instr as int / 4096
}

/// What shifts and masks compute in `sign_extend`, in terms of powers of two.
pub proof fn lemma_sign_extend_bits(value: u16, bit_count: u16)
    requires
        1 <= bit_count < 16,
    ensures
        ((value >> ((bit_count - 1) as u16)) & 1 == 1) <==> (value as int % (pow2(
            bit_count as nat,
        ) as int) >= pow2((bit_count - 1) as nat)),
        (value >> ((bit_count - 1) as u16)) & 1 == 1 ==> (value | (0xFFFFu16 << bit_count))
            == sign_extended(value, bit_count as nat),
        (value >> ((bit_count - 1) as u16)) & 1 != 1 ==> value == sign_extended(
            value,
            bit_count as nat,
        ),
        value < pow2(bit_count as nat) ==> sign_extended(value, bit_count as nat) == wrap16(
            signed_field(value as int, bit_count as nat),
        ),
        pow2(bit_count as nat) <= 0x8000,
{
    let below: u16 = (bit_count - 1) as u16;
    let whole: u32 = 1u32 << (bit_count as u32);
    let half: u32 = 1u32 << (below as u32);
    lemma2_to64();
    lemma_u32_shl_is_mul(1u32, bit_count as u32);
    lemma_u32_shl_is_mul(1u32, below as u32);
    assert(whole == pow2(bit_count as nat));
    assert(half == pow2(below as nat));
    assert(whole == 2 * half && 1 <= half && whole <= 0x8000) by (bit_vector)
        requires
            1 <= bit_count < 16,
            below == (bit_count - 1) as u16,
            whole == 1u32 << (bit_count as u32),
            half == 1u32 << (below as u32),
    ;
    assert(((value >> below) & 1 == 1) <==> ((value as u32) % whole >= half)) by (bit_vector)
        requires
            1 <= bit_count < 16,
            below == (bit_count - 1) as u16,
            whole == 1u32 << (bit_count as u32),
            half == 1u32 << (below as u32),
    ;
    assert((value >> below) & 1 == 1 ==> (value | (0xFFFFu16 << bit_count)) as u32 == (value as u32)
        % whole + 0x1_0000u32 - whole) by (bit_vector)
        requires
            1 <= bit_count < 16,
            below == (bit_count - 1) as u16,
            whole == 1u32 << (bit_count as u32),
    ;
    if value < whole {
        lemma_small_mod(value as nat, whole as nat);
    }
}

/// Extends the sign of a field of `bit_count` bits over the whole word.
///
/// Where bit `bit_count - 1` of `number` is set, every higher bit of the
/// result is set as well; otherwise the result is `number`. For a `number`
/// that fits in `bit_count` bits the result is the 16-bit two's-complement
/// form of the field's signed value.
pub fn sign_extend(number: u16, bit_count: u16) -> (result: u16)
    requires
        1 <= bit_count < 16,
    ensures
        result == sign_extended(number, bit_count as nat),
        number < pow2(bit_count as nat) ==> result == wrap16(
            signed_field(number as int, bit_count as nat),
        ),
{
    proof {
        lemma_sign_extend_bits(number, bit_count);
    }
    let mut result: u16 = number;
    if (number >> (bit_count - 1)) & 1 == 1 {
        result = number | (0xFFFFu16 << bit_count);
    }
    result
}

/// The register number in bits 11 to 9.
pub fn dest_of(instr: u16) -> (r: usize)
    ensures
        r == dest_field(instr),
        r < 8,
{
    let field: u16 = (instr >> 9) & 0x7;
    assert((instr >> 9) & 0x7 == (instr / 512) % 8) by (bit_vector);
    field as usize
}

/// The register number in bits 8 to 6.
pub fn base_of(instr: u16) -> (r: usize)
    ensures
        r == base_field(instr),
        r < 8,
{
    let field: u16 = (instr >> 6) & 0x7;
    assert((instr >> 6) & 0x7 == (instr / 64) % 8) by (bit_vector);
    field as usize
}

/// The register number in bits 2 to 0.
pub fn src2_of(instr: u16) -> (r: usize)
    ensures
        r == src2_field(instr),
        r < 8,
{
    let field: u16 = instr & 0x7;
    assert(instr & 0x7 == instr % 8) by (bit_vector);
    field as usize
}

/// Whether bit 5 is set.
pub fn is_immediate(instr: u16) -> (r: bool)
    ensures
        r == immediate_mode(instr),
{
    let flag: u16 = (instr >> 5) & 0x1;
    assert((instr >> 5) & 0x1 == (instr / 32) % 2) by (bit_vector);
    flag == 1
}

/// Whether bit `bit` is set, for the three bits that BR and JSR test.
pub fn flag_bit(instr: u16, bit: u16) -> (r: bool)
    requires
        9 <= bit <= 11,
    ensures
        bit == 11 ==> r == bit11(instr),
        bit == 10 ==> r == bit10(instr),
        bit == 9 ==> r == bit9(instr),
{
    assert((instr >> 11) & 0x1 == (instr / 2048) % 2) by (bit_vector);
    assert((instr >> 10) & 0x1 == (instr / 1024) % 2) by (bit_vector);
    assert((instr >> 9) & 0x1 == (instr / 512) % 2) by (bit_vector);
    ((instr >> bit) & 0x1) != 0
}

/// The immediate operand of ADD and AND, sign-extended to a word.
pub fn imm5_of(instr: u16) -> (r: u16)
    ensures
        r == wrap16(imm5(instr)),
{
    let field: u16 = instr & 0x1F;
    assert(instr & 0x1F == instr % 32) by (bit_vector);
    proof {
        lemma2_to64();
    }
    sign_extend(field, 5)
}

/// The offset of LDR and STR, sign-extended to a word.
pub fn offset6_of(instr: u16) -> (r: u16)
    ensures
        r == wrap16(offset6(instr)),
{
    let field: u16 = instr & 0x3F;
    assert(instr & 0x3F == instr % 64) by (bit_vector);
    proof {
        lemma2_to64();
    }
    sign_extend(field, 6)
}

/// The offset that the PC-relative instructions add, sign-extended to a word.
pub fn offset9_of(instr: u16) -> (r: u16)
    ensures
        r == wrap16(offset9(instr)),
{
    let field: u16 = instr & 0x1FF;
    assert(instr & 0x1FF == instr % 512) by (bit_vector);
    proof {
        lemma2_to64();
    }
    sign_extend(field, 9)
}

/// The offset of JSR, sign-extended to a word.
pub fn offset11_of(instr: u16) -> (r: u16)
    ensures
        r == wrap16(offset11(instr)),
{
    let field: u16 = instr & 0x7FF;
    assert(instr & 0x7FF == instr % 2048) by (bit_vector);
    proof {
        lemma2_to64();
    }
    sign_extend(field, 11)
}

/// The trap vector in bits 7 to 0.
pub fn trap_vector_of(instr: u16) -> (r: u16)
    ensures
        r == trap_vector(instr),
{
    let field: u16 = instr & 0xFF;
    assert(instr & 0xFF == instr % 256) by (bit_vector);
    field
}

/// The sum of two words modulo 65536, as the machine adds addresses and
/// values.
pub fn add_words(a: u16, b: u16) -> (r: u16)
    ensures
        r == wrap16(a + b),
{
    a.wrapping_add(b)
}

/// Adding the word that stands for a signed offset is adding the offset.
pub proof fn lemma_wrap_add(a: u16, x: int)
    ensures
        wrap16(a + wrap16(x)) == wrap16(a + x),
{
    assert((a + (x % 0x1_0000)) % 0x1_0000 == (a + x) % 0x1_0000) by (nonlinear_arith);
}

} // verus!
