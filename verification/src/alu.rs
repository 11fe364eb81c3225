//! The arithmetic and logic unit: what each operation computes from the
//! values it is given, and the flags it leaves.
//!
//! The model of each operation is stated over the integers where the
//! operation is arithmetic, and bit by bit only where it is a bitwise
//! operation by nature.

use vstd::prelude::*;
use crate::cpu::FlagRegister;

verus! {

/// A computed byte together with the flags after the operation.
#[derive(Clone, Copy, Debug, PartialEq, Eq, Structural)]
pub struct AluOut {
    pub value: u8,
    pub flags: FlagRegister,
}

/// A computed 16-bit value together with the flags after the operation.
#[derive(Clone, Copy, Debug, PartialEq, Eq, Structural)]
pub struct AluOut16 {
    pub value: u16,
    pub flags: FlagRegister,
}

/// The rotate and shift operations of the extended opcode page.
#[derive(Clone, Copy, Debug, PartialEq, Eq, Structural)]
pub enum Shift {
    /// Rotate left; bit 7 goes to bit 0 and to the carry.
    Rlc,
    /// Rotate right; bit 0 goes to bit 7 and to the carry.
    Rrc,
    /// Rotate left through the carry.
    Rl,
    /// Rotate right through the carry.
    Rr,
    /// Shift left; bit 0 becomes zero.
    Sla,
    /// Shift right; bit 7 keeps its value.
    Sra,
    /// Shift right; bit 7 becomes zero.
    Srl,
    /// Exchange the two nibbles.
    Swap,
}

/// The eight operations between the accumulator and an 8-bit operand.
#[derive(Clone, Copy, Debug, PartialEq, Eq, Structural)]
pub enum AluOp {
    Add,
    /// Add with the carry flag.
    Adc,
    Sub,
    /// Subtract with the carry flag.
    Sbc,
    And,
    Xor,
    Or,
    /// Compare: a subtraction whose difference is discarded.
    Cp,
}

/// A carry as a number.
pub open spec fn carry_value(carry: bool) -> u8 {
    if carry {
        1
    } else {
        0
    }
}

/// Whether adding `a`, `b` and `c` carries out of bit 3.
pub open spec fn half_carry_add(a: u8, b: u8, c: u8) -> bool {
    a % 16 + b % 16 + c > 15
}

/// Whether subtracting `b` and `c` from `a` borrows into bit 3.
pub open spec fn half_carry_sub(a: u8, b: u8, c: u8) -> bool {
    a % 16 < b % 16 + c
}

/// Whether adding `a`, `b` and `c` carries out of the low eleven bits.
pub open spec fn half_carry_add16(a: u16, b: u16, c: u16) -> bool {
    a % 0x800 + b % 0x800 + c > 0x7FF
}

/// The sum or the difference of `a`, `n` and `carry` as a byte, and whether
/// it left the range of a byte.
pub open spec fn carry_chain(a: u8, n: u8, carry: u8, subtract: bool) -> (u8, bool) {
    if subtract {
        (((a - n - carry) % 256) as u8, a < n + carry)
    } else {
        (((a + n + carry) % 256) as u8, a + n + carry > 255)
    }
}

/// The displacement byte `e` as a 16-bit two's-complement value.
pub open spec fn sign_extend(e: u8) -> u16 {
    if e < 128 {
        e as u16
    } else {
        (e + 0xFF00) as u16
    }
}

/// ADD and ADC: `a + n + carry`.
pub open spec fn add_result(a: u8, n: u8, carry: bool) -> AluOut {
    let c = carry_value(carry);
    let value = carry_chain(a, n, c, false).0;
    AluOut {
        value,
        flags: FlagRegister {
            z: value == 0,
            n: false,
            h: half_carry_add(a, n, c),
            c: carry_chain(a, n, c, false).1,
        },
    }
}

/// SUB, SBC and CP: `a - n - carry`.
pub open spec fn sub_result(a: u8, n: u8, carry: bool) -> AluOut {
    let c = carry_value(carry);
    let value = carry_chain(a, n, c, true).0;
    AluOut {
        value,
        flags: FlagRegister {
            z: value == 0,
            n: true,
            h: half_carry_sub(a, n, c),
            c: carry_chain(a, n, c, true).1,
        },
    }
}

/// AND.
pub open spec fn and_result(a: u8, n: u8) -> AluOut {
    AluOut { value: a & n, flags: FlagRegister { z: a & n == 0, n: false, h: true, c: false } }
}

/// OR.
pub open spec fn or_result(a: u8, n: u8) -> AluOut {
    AluOut { value: a | n, flags: FlagRegister { z: a | n == 0, n: false, h: false, c: false } }
}

/// XOR.
pub open spec fn xor_result(a: u8, n: u8) -> AluOut {
    AluOut { value: a ^ n, flags: FlagRegister { z: a ^ n == 0, n: false, h: false, c: false } }
}

/// The accumulator and the flags after the operation `kind` on the
/// accumulator `a` and the operand `n`.
pub open spec fn alu_result(kind: AluOp, a: u8, n: u8, flags: FlagRegister) -> AluOut {
    match kind {
        AluOp::Add => add_result(a, n, false),
        AluOp::Adc => add_result(a, n, flags.c),
        AluOp::Sub => sub_result(a, n, false),
        AluOp::Sbc => sub_result(a, n, flags.c),
        AluOp::And => and_result(a, n),
        AluOp::Xor => xor_result(a, n),
        AluOp::Or => or_result(a, n),
        AluOp::Cp => AluOut { value: a, flags: sub_result(a, n, false).flags },
    }
}

/// INC of a byte. The carry flag stays.
pub open spec fn inc_result(v: u8, flags: FlagRegister) -> AluOut {
    let value = ((v + 1) % 256) as u8;
    AluOut {
        value,
        flags: FlagRegister { z: value == 0, n: false, h: half_carry_add(v, 1, 0), c: flags.c },
    }
}

/// DEC of a byte. The carry flag stays.
pub open spec fn dec_result(v: u8, flags: FlagRegister) -> AluOut {
    let value = ((v - 1) % 256) as u8;
    AluOut {
        value,
        flags: FlagRegister { z: value == 0, n: true, h: half_carry_sub(v, 1, 0), c: flags.c },
    }
}

/// What DAA adds to the accumulator after an addition, or takes from it
/// after a subtraction.
pub open spec fn daa_correction(a: u8, flags: FlagRegister) -> u8 {
    if flags.n {
        ((if flags.h {
            0x06int
        } else {
            0
        }) + (if flags.c {
            0x60int
        } else {
            0
        })) as u8
    } else {
        ((if flags.h || a % 16 > 9 {
            0x06int
        } else {
            0
        }) + (if flags.c || a > 0x99 {
            0x60int
        } else {
            0
        })) as u8
    }
}

/// DAA: the accumulator corrected to packed decimal.
pub open spec fn daa_result(a: u8, flags: FlagRegister) -> AluOut {
    let correction = daa_correction(a, flags);
    let value = if flags.n {
        ((a - correction) % 256) as u8
    } else {
        ((a + correction) % 256) as u8
    };
    AluOut {
        value,
        flags: FlagRegister { z: value == 0, n: flags.n, h: false, c: correction >= 0x60 },
    }
}

/// CPL: every bit of the accumulator inverted.
pub open spec fn cpl_result(a: u8, flags: FlagRegister) -> AluOut {
    AluOut { value: !a, flags: FlagRegister { n: true, h: true, ..flags } }
}

/// CCF: the carry flag inverted.
pub open spec fn ccf_result(flags: FlagRegister) -> FlagRegister {
    FlagRegister { n: false, h: false, c: !flags.c, ..flags }
}

/// SCF: the carry flag set.
pub open spec fn scf_result(flags: FlagRegister) -> FlagRegister {
    FlagRegister { n: false, h: false, c: true, ..flags }
}

/// The byte that a rotate or shift leaves.
pub open spec fn shift_value(kind: Shift, v: u8, carry: bool) -> u8 {
    match kind {
        Shift::Rlc => ((v * 2) % 256 + v / 128) as u8,
        Shift::Rrc => (v / 2 + (v % 2) * 128) as u8,
        Shift::Rl => ((v * 2) % 256 + carry_value(carry)) as u8,
        Shift::Rr => (v / 2 + carry_value(carry) * 128) as u8,
        Shift::Sla => ((v * 2) % 256) as u8,
        Shift::Sra => (v / 2 + (v / 128) * 128) as u8,
        Shift::Srl => v / 2,
        Shift::Swap => ((v % 16) * 16 + v / 16) as u8,
    }
}

/// The bit that a rotate or shift moves out.
pub open spec fn shift_carry(kind: Shift, v: u8) -> bool {
    match kind {
        Shift::Rlc | Shift::Rl | Shift::Sla => v >= 128,
        Shift::Rrc | Shift::Rr | Shift::Sra | Shift::Srl => v % 2 == 1,
        Shift::Swap => false,
    }
}

/// A rotate or shift of the extended opcode page.
pub open spec fn shift_result(kind: Shift, v: u8, carry: bool) -> AluOut {
    let value = shift_value(kind, v, carry);
    AluOut {
        value,
        flags: FlagRegister { z: value == 0, n: false, h: false, c: shift_carry(kind, v) },
    }
}

/// A rotate of the accumulator by one of the one-byte opcodes: as the
/// rotate of the extended page, but the zero flag is always cleared.
pub open spec fn accumulator_shift_result(kind: Shift, a: u8, carry: bool) -> AluOut {
    let out = shift_result(kind, a, carry);
    AluOut { value: out.value, flags: FlagRegister { z: false, ..out.flags } }
}

/// BIT: the flags after testing bit `bit` of `v`. The carry flag stays.
pub open spec fn bit_result(bit: u8, v: u8, flags: FlagRegister) -> FlagRegister
    recommends
        bit < 8,
{
    FlagRegister { z: v & (1u8 << bit) == 0, n: false, h: true, c: flags.c }
}

/// SET: `v` with bit `bit` set.
pub open spec fn set_result(bit: u8, v: u8) -> u8
    recommends
        bit < 8,
{
    v | (1u8 << bit)
}

/// RES: `v` with bit `bit` cleared.
pub open spec fn res_result(bit: u8, v: u8) -> u8
    recommends
        bit < 8,
{
    v & (0xFFu8 ^ (1u8 << bit))
}

/// ADD HL,rr: the 16-bit sum. The zero flag stays.
pub open spec fn add16_result(hl: u16, n: u16, flags: FlagRegister) -> AluOut16 {
    AluOut16 {
        value: ((hl + n) % 0x10000) as u16,
        flags: FlagRegister {
            z: flags.z,
            n: false,
            h: half_carry_add16(hl, n, 0),
            c: hl + n > 0xFFFF,
        },
    }
}

/// ADD SP,e and LD HL,SP+e: SP plus the sign-extended displacement. The
/// half carry and the carry are those of adding the low bytes.
pub open spec fn add_displacement_result(sp: u16, e: u8) -> AluOut16 {
    AluOut16 {
        value: ((sp + sign_extend(e)) % 0x10000) as u16,
        flags: FlagRegister {
            z: false,
            n: false,
            h: sp % 16 + e % 16 > 15,
            c: sp % 256 + e > 255,
        },
    }
}

/// The low nibble of a byte, by mask and by remainder.
proof fn lemma_low_nibble(a: u8)
    by (bit_vector)
    ensures
        a & 0xF == a % 16,
        a & 0x0F <= 15,
{
}

/// The low bits of a 16-bit value, by mask and by remainder.
proof fn lemma_low_bits16(a: u16)
    by (bit_vector)
    ensures
        a & 0x07FF == a % 0x800,
        a & 0x000F == a % 16,
        a & 0x00FF == a % 256,
{
}

/// The left rotates and shifts of a byte, bit by bit and by arithmetic.
proof fn lemma_left_shifts(v: u8, c: u8)
    by (bit_vector)
    requires
        c <= 1,
    ensures
        ((v << 1u8) | (v >> 7u8)) == (v * 2) % 256 + v / 128,
        ((v << 1u8) | c) == (v * 2) % 256 + c,
        (v << 1u8) == (v * 2) % 256,
        (v >> 7u8 != 0) == (v >= 128),
        (v & 0x80 == 0x80) == (v >= 128),
        (((v << 1u8) | (v >> 7u8)) & 0x01 == 0x01) == (v >= 128),
{
}

/// The right rotates and shifts of a byte and the exchange of its
/// nibbles, bit by bit and by arithmetic.
proof fn lemma_right_shifts(v: u8, c: u8)
    by (bit_vector)
    requires
        c <= 1,
    ensures
        ((v >> 1u8) | (v << 7u8)) == v / 2 + (v % 2) * 128,
        ((v >> 1u8) | (c << 7u8)) == v / 2 + c * 128,
        ((v >> 1u8) | (v & 0x80)) == v / 2 + (v / 128) * 128,
        (v >> 1u8) == v / 2,
        (((v & 0x0F) << 4u8) | ((v & 0xF0) >> 4u8)) == (v % 16) * 16 + v / 16,
        (v & 0x01 == 0x01) == (v % 2 == 1),
        (v & 0x01 != 0) == (v % 2 == 1),
        (((v >> 1u8) | (v << 7u8)) & 0x80 == 0x80) == (v % 2 == 1),
{
}

/// Whether adding `a`, `b` and `c` carries out of bit 3.
pub fn half_carry_8_add(a: u8, b: u8, c: u8) -> (r: bool)
    ensures
        r == half_carry_add(a, b, c),
{
    proof {
        lemma_low_nibble(a);
        lemma_low_nibble(b);
    }
    (a & 0xF) as u16 + (b & 0xF) as u16 + c as u16 > 0xF
}

/// Whether subtracting `b` and `c` from `a` borrows into bit 3.
pub fn half_carry_8_sub(a: u8, b: u8, c: u8) -> (r: bool)
    ensures
        r == half_carry_sub(a, b, c),
{
    proof {
        lemma_low_nibble(a);
        lemma_low_nibble(b);
    }
    ((a & 0x0F) as u16) < (b & 0x0F) as u16 + c as u16
}

/// Whether adding `a`, `b` and `c` carries out of the low eleven bits.
pub fn half_carry_16_add(a: u16, b: u16, c: u16) -> (r: bool)
    ensures
        r == half_carry_add16(a, b, c),
{
    proof {
        lemma_low_bits16(a);
        lemma_low_bits16(b);
    }
    (a & 0x07FF) as u32 + (b & 0x07FF) as u32 + c as u32 > 0x07FF
}

/// Adds `n` and then `carry` to `a`, or subtracts them from it, one step
/// after the other, and reports whether a step left the range of a byte.
pub fn calc_with_carry(a: u8, n: u8, carry: u8, subtract: bool) -> (r: (u8, bool))
    ensures
        r == carry_chain(a, n, carry, subtract),
{
    if subtract {
        let first = a.wrapping_sub(n);
        let second = first.wrapping_sub(carry);
        (second, a < n || first < carry)
    } else {
        let first = a.wrapping_add(n);
        let second = first.wrapping_add(carry);
        (second, n > 255 - a || carry > 255 - first)
    }
}

/// The displacement byte `e` as a 16-bit two's-complement value.
pub fn extend_sign(e: u8) -> (r: u16)
    ensures
        r == sign_extend(e),
{
    if e < 0x80 {
        e as u16
    } else {
        0xFF00 + e as u16
    }
}

/// ADD and ADC.
pub fn add8(a: u8, n: u8, carry: bool) -> (r: AluOut)
    ensures
        r == add_result(a, n, carry),
{
    let c: u8 = if carry {
        1
    } else {
        0
    };
    let (sum, new_carry) = calc_with_carry(a, n, c, false);
    AluOut {
        value: sum,
        flags: FlagRegister { z: sum == 0, n: false, h: half_carry_8_add(a, n, c), c: new_carry },
    }
}

/// SUB, SBC and CP.
pub fn sub8(a: u8, n: u8, carry: bool) -> (r: AluOut)
    ensures
        r == sub_result(a, n, carry),
{
    let c: u8 = if carry {
        1
    } else {
        0
    };
    let (diff, new_carry) = calc_with_carry(a, n, c, true);
    AluOut {
        value: diff,
        flags: FlagRegister { z: diff == 0, n: true, h: half_carry_8_sub(a, n, c), c: new_carry },
    }
}

/// AND.
pub fn and8(a: u8, n: u8) -> (r: AluOut)
    ensures
        r == and_result(a, n),
{
    let value = a & n;
    AluOut { value, flags: FlagRegister { z: value == 0, n: false, h: true, c: false } }
}

/// OR.
pub fn or8(a: u8, n: u8) -> (r: AluOut)
    ensures
        r == or_result(a, n),
{
    let value = a | n;
    AluOut { value, flags: FlagRegister { z: value == 0, n: false, h: false, c: false } }
}

/// XOR.
pub fn xor8(a: u8, n: u8) -> (r: AluOut)
    ensures
        r == xor_result(a, n),
{
    let value = a ^ n;
    AluOut { value, flags: FlagRegister { z: value == 0, n: false, h: false, c: false } }
}

/// An operation between the accumulator and an 8-bit operand.
pub fn alu8(kind: AluOp, a: u8, n: u8, flags: FlagRegister) -> (r: AluOut)
    ensures
        r == alu_result(kind, a, n, flags),
{
    match kind {
        AluOp::Add => add8(a, n, false),
        AluOp::Adc => add8(a, n, flags.c),
        AluOp::Sub => sub8(a, n, false),
        AluOp::Sbc => sub8(a, n, flags.c),
        AluOp::And => and8(a, n),
        AluOp::Xor => xor8(a, n),
        AluOp::Or => or8(a, n),
        AluOp::Cp => AluOut { value: a, flags: sub8(a, n, false).flags },
    }
}

/// INC of a byte.
pub fn inc8(v: u8, flags: FlagRegister) -> (r: AluOut)
    ensures
        r == inc_result(v, flags),
{
    let value = v.wrapping_add(1);
    AluOut {
        value,
        flags: FlagRegister { z: value == 0, n: false, h: half_carry_8_add(v, 1, 0), c: flags.c },
    }
}

/// DEC of a byte.
pub fn dec8(v: u8, flags: FlagRegister) -> (r: AluOut)
    ensures
        r == dec_result(v, flags),
{
    let value = v.wrapping_sub(1);
    AluOut {
        value,
        flags: FlagRegister { z: value == 0, n: true, h: half_carry_8_sub(v, 1, 0), c: flags.c },
    }
}

/// DAA.
pub fn daa(a: u8, flags: FlagRegister) -> (r: AluOut)
    ensures
        r == daa_result(a, flags),
{
    proof {
        lemma_low_nibble(a);
    }
    let lo = a & 0x0F;
    let mut added: u8 = 0;
    let value;
    if flags.n {
        if flags.h {
            added = 0x06;
        }
        if flags.c {
            added += 0x60;
        }
        value = a.wrapping_sub(added);
    } else {
        if flags.h || lo > 0x9 {
            added = 0x06;
        }
        if flags.c || a > 0x99 {
            added += 0x60;
        }
        value = a.wrapping_add(added);
    }
    AluOut { value, flags: FlagRegister { z: value == 0, n: flags.n, h: false, c: added >= 0x60 } }
}

/// CPL.
pub fn cpl(a: u8, flags: FlagRegister) -> (r: AluOut)
    ensures
        r == cpl_result(a, flags),
{
    AluOut { value: !a, flags: FlagRegister { z: flags.z, n: true, h: true, c: flags.c } }
}

/// CCF.
pub fn ccf(flags: FlagRegister) -> (r: FlagRegister)
    ensures
        r == ccf_result(flags),
{
    FlagRegister { z: flags.z, n: false, h: false, c: !flags.c }
}

/// SCF.
pub fn scf(flags: FlagRegister) -> (r: FlagRegister)
    ensures
        r == scf_result(flags),
{
    FlagRegister { z: flags.z, n: false, h: false, c: true }
}

/// A rotate or shift of the extended opcode page.
pub fn shift8(kind: Shift, v: u8, carry: bool) -> (r: AluOut)
    ensures
        r == shift_result(kind, v, carry),
{
    let carry_bit: u8 = if carry {
        1
    } else {
        0
    };
    proof {
        lemma_left_shifts(v, carry_bit);
        lemma_right_shifts(v, carry_bit);
    }
    let (value, carry_out) = match kind {
        Shift::Rlc => {
            let val = (v << 1) | (v >> 7);
            (val, (val & 0x01) == 0x01)
        },
        Shift::Rrc => {
            let val = (v >> 1) | (v << 7);
            (val, (val & 0x80) == 0x80)
        },
        Shift::Rl => ((v << 1) | carry_bit, v >> 7 != 0),
        Shift::Rr => ((v >> 1) | (carry_bit << 7), v & 0x01 != 0),
        Shift::Sla => (v << 1, v & 0x80 == 0x80),
        Shift::Sra => ((v >> 1) | (v & 0x80), v & 0x01 == 0x01),
        Shift::Srl => (v >> 1, v & 0x01 == 0x01),
        Shift::Swap => (((v & 0x0F) << 4) | ((v & 0xF0) >> 4), false),
    };
    AluOut { value, flags: FlagRegister { z: value == 0, n: false, h: false, c: carry_out } }
}

/// A rotate of the accumulator by one of the one-byte opcodes.
pub fn accumulator_shift(kind: Shift, a: u8, carry: bool) -> (r: AluOut)
    ensures
        r == accumulator_shift_result(kind, a, carry),
{
    let out = shift8(kind, a, carry);
    AluOut {
        value: out.value,
        flags: FlagRegister { z: false, n: out.flags.n, h: out.flags.h, c: out.flags.c },
    }
}

/// BIT.
pub fn test_bit(bit: u8, v: u8, flags: FlagRegister) -> (r: FlagRegister)
    requires
        bit < 8,
    ensures
        r == bit_result(bit, v, flags),
{
    FlagRegister { z: v & (1u8 << bit) == 0, n: false, h: true, c: flags.c }
}

/// SET.
pub fn set_bit(bit: u8, v: u8) -> (r: u8)
    requires
        bit < 8,
    ensures
        r == set_result(bit, v),
{
    v | (1u8 << bit)
}

/// RES.
pub fn reset_bit(bit: u8, v: u8) -> (r: u8)
    requires
        bit < 8,
    ensures
        r == res_result(bit, v),
{
    v & (0xFF ^ (1u8 << bit))
}

/// ADD HL,rr.
pub fn add16(hl: u16, n: u16, flags: FlagRegister) -> (r: AluOut16)
    ensures
        r == add16_result(hl, n, flags),
{
    let hc = half_carry_16_add(hl, n, 0);
    let value = hl.wrapping_add(n);
    AluOut16 { value, flags: FlagRegister { z: flags.z, n: false, h: hc, c: n > 0xFFFF - hl } }
}

/// ADD SP,e and LD HL,SP+e.
pub fn add_displacement(sp: u16, e: u8) -> (r: AluOut16)
    ensures
        r == add_displacement_result(sp, e),
{
    proof {
        lemma_low_bits16(sp);
        lemma_low_nibble(e);
    }
    let h = (sp & 0x000F) + ((e & 0x0F) as u16) > 0x000F;
    let c = (sp & 0x00FF) + (e as u16) > 0x00FF;
    AluOut16 {
        value: sp.wrapping_add(extend_sign(e)),
        flags: FlagRegister { z: false, n: false, h, c },
    }
}

} // verus!
