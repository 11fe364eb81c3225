//! Laws of the machine: what holds of every register state, every byte and
//! every memory.

use vstd::prelude::*;
use vstd::arithmetic::div_mod::lemma_fundamental_div_mod_converse;
use crate::alu::{
    add_result, carry_value, daa_result, half_carry_add, half_carry_sub, sub_result,
};
use crate::cpu::{high_byte, low_byte, word, FlagRegister, Registers, State};
use crate::fault::Fault;
use crate::memory::{
    canonical, is_mapped, load, store, Memory, ECHO_END, ECHO_START, WORK_RAM_START,
};
use crate::opcodes::{Command, FlagId, Register16Id};
use crate::semantics::Machine;

verus! {

/// Packing the flags that a byte stands for gives the byte with its low
/// nibble cleared.
pub proof fn lemma_pack_unpack(byte: u8)
    ensures
        FlagRegister::unpack(byte).pack() == byte & 0xF0,
{
    assert((if byte >= 128 {
        0x80u8
    } else {
        0
    }) + (if (byte / 64) % 2 == 1 {
        0x40u8
    } else {
        0
    }) + (if (byte / 32) % 2 == 1 {
        0x20u8
    } else {
        0
    }) + (if (byte / 16) % 2 == 1 {
        0x10u8
    } else {
        0
    }) == byte & 0xF0) by (bit_vector);
}

/// Unpacking the packed flags gives the flags back, and the low nibble of
/// the packed byte is zero.
pub proof fn lemma_unpack_pack(flags: FlagRegister)
    ensures
        FlagRegister::unpack(flags.pack()) == flags,
        flags.pack() % 16 == 0,
{
}

/// A register pair is a view of its two cells: writing a pair and reading
/// it gives the value back, but for AF, whose low nibble reads as zero.
pub proof fn lemma_pair_round_trip(regs: Registers, pair: Register16Id, value: u16)
    ensures
        pair != Register16Id::AF ==> regs.with_reg16(pair, value).reg16(pair) == value,
        regs.with_reg16(Register16Id::AF, value).reg16(Register16Id::AF) == value & 0xFFF0,
{
    assert(word(high_byte(value), low_byte(value)) == value);
    lemma_pack_unpack(low_byte(value));
    let lo = low_byte(value);
    let masked = lo & 0xF0;
    assert(lo == value % 256 && masked == lo & 0xF0 ==> (value / 256) * 256 + masked == value
        & 0xFFF0) by (bit_vector);
}

/// The half carry of an addition without carry-in is the carry out of the
/// sum of the low nibbles.
pub proof fn lemma_half_carry_add_nibbles(a: u8, b: u8)
    ensures
        half_carry_add(a, b, 0) == ((a & 0xF) + (b & 0xF) > 0xF),
{
    assert(a & 0xF == a % 16 && b & 0xF == b % 16) by (bit_vector);
}

/// The half borrow of a subtraction without borrow-in compares the low
/// nibbles.
pub proof fn lemma_half_carry_sub_nibbles(a: u8, b: u8)
    ensures
        half_carry_sub(a, b, 0) == ((a & 0xF) < (b & 0xF)),
{
    assert(a & 0xF == a % 16 && b & 0xF == b % 16) by (bit_vector);
}

/// Whether both nibbles of `v` are decimal digits.
pub open spec fn is_bcd(v: u8) -> bool {
    v / 16 <= 9 && v % 16 <= 9
}

/// The number that the packed decimal byte `v` stands for.
pub open spec fn bcd_value(v: u8) -> int {
    (v / 16) * 10 + v % 16
}

/// DAA after an addition of two packed decimal bytes leaves their decimal
/// sum: the accumulator holds its last two digits and the carry flag the
/// hundreds.
pub proof fn lemma_daa_after_add(a: u8, b: u8, carry: bool)
    requires
        is_bcd(a),
        is_bcd(b),
    ensures
        ({
            let sum = add_result(a, b, carry);
            let out = daa_result(sum.value, sum.flags);
            &&& is_bcd(out.value)
            &&& bcd_value(out.value) + 100 * carry_value(out.flags.c) == bcd_value(a)
                + bcd_value(b) + carry_value(carry)
            &&& out.flags.z == (out.value == 0)
            &&& !out.flags.h
        }),
{
    let c = carry_value(carry) as int;
    // the sum of the low digits and the decimal carries
    let low = a % 16 + b % 16 + c;
    let tens: int = if low >= 10 {
        1
    } else {
        0
    };
    let high = a / 16 + b / 16 + tens;
    let hundreds: int = if high >= 10 {
        1
    } else {
        0
    };
    // the binary sum, its carries and its nibbles
    let s = a + b + c;
    let carry_out: int = if s > 255 {
        1
    } else {
        0
    };
    let nibble_carry: int = if low > 15 {
        1
    } else {
        0
    };
    let value = s - 256 * carry_out;
    lemma_fundamental_div_mod_converse(s, 256, carry_out, value);
    lemma_fundamental_div_mod_converse(
        value,
        16,
        a / 16 + b / 16 + nibble_carry - 16 * carry_out,
        low - 16 * nibble_carry,
    );
    let sum = add_result(a, b, carry);
    assert(sum.value == value);
    assert((sum.flags.h || sum.value % 16 > 9) == (tens == 1));
    assert((sum.flags.c || sum.value > 0x99) == (hundreds == 1));
    // the corrected sum and its nibbles
    let digits = 16 * (high - 10 * hundreds) + (low - 10 * tens);
    lemma_fundamental_div_mod_converse(
        value + 6 * tens + 0x60 * hundreds,
        256,
        hundreds - carry_out,
        digits,
    );
    lemma_fundamental_div_mod_converse(digits, 16, high - 10 * hundreds, low - 10 * tens);
}

/// DAA after a subtraction of two packed decimal bytes leaves their
/// decimal difference: the accumulator holds its last two digits and the
/// carry flag says that a hundred was borrowed.
pub proof fn lemma_daa_after_sub(a: u8, b: u8, carry: bool)
    requires
        is_bcd(a),
        is_bcd(b),
    ensures
        ({
            let diff = sub_result(a, b, carry);
            let out = daa_result(diff.value, diff.flags);
            &&& is_bcd(out.value)
            &&& bcd_value(out.value) - 100 * carry_value(out.flags.c) == bcd_value(a)
                - bcd_value(b) - carry_value(carry)
            &&& out.flags.z == (out.value == 0)
            &&& !out.flags.h
        }),
{
    let c = carry_value(carry) as int;
    // the difference of the low digits and the decimal borrows
    let low = a % 16 - b % 16 - c;
    let tens: int = if low < 0 {
        1
    } else {
        0
    };
    let high = a / 16 - b / 16 - tens;
    let hundreds: int = if high < 0 {
        1
    } else {
        0
    };
    // the binary difference: it borrows where the decimal one does
    let d = a - b - c;
    let value = d + 256 * hundreds;
    lemma_fundamental_div_mod_converse(d, 256, -hundreds, value);
    let diff = sub_result(a, b, carry);
    assert(diff.value == value);
    assert(diff.flags.h == (tens == 1));
    assert(diff.flags.c == (hundreds == 1));
    // the corrected difference and its nibbles
    let digits = 16 * (high + 10 * hundreds) + (low + 10 * tens);
    lemma_fundamental_div_mod_converse(value - 6 * tens - 0x60 * hundreds, 256, 0, digits);
    lemma_fundamental_div_mod_converse(digits, 16, high + 10 * hundreds, low + 10 * tens);
}

/// A byte that was stored is read back through every address that denotes
/// the same cell, and a store changes no other cell.
pub proof fn lemma_load_after_store(mem: Memory, addr: u16, value: u8, other: u16)
    requires
        is_mapped(mem, addr),
    ensures
        store(mem, addr, value) matches Ok(after) && load(after, other) == if canonical(other)
            == canonical(addr) {
            Ok::<u8, Fault>(value)
        } else {
            load(mem, other)
        },
{
}

/// The echo range aliases work RAM: what is written at a work RAM address
/// is read `0x2000` higher, and what is written in the echo range is read
/// `0x2000` lower.
pub proof fn lemma_echo_alias(mem: Memory, addr: u16, value: u8)
    requires
        WORK_RAM_START <= addr < ECHO_END - 0x2000,
        is_mapped(mem, addr),
    ensures
        ECHO_START <= addr + 0x2000 < ECHO_END,
        store(mem, addr, value) matches Ok(after) && load(after, (addr + 0x2000) as u16) == Ok::<
            u8,
            Fault,
        >(value),
        store(mem, (addr + 0x2000) as u16, value) matches Ok(after) && load(after, addr) == Ok::<
            u8,
            Fault,
        >(value),
{
}

/// What was pushed is popped, and the stack pointer is back where it was.
pub proof fn lemma_pop_after_push(m: Machine, value: u16)
    requires
        m.push16(value) is Ok,
    ensures
        m.push16(value) matches Ok(pushed) && pushed.pop16() matches Ok((popped, after))
            && popped == value && after.regs == m.regs && pushed.regs.sp == m.regs.sp.wrapping_sub(
            2,
        ),
{
    let sp = m.regs.sp;
    let hi_addr = sp.wrapping_sub(1);
    let lo_addr = sp.wrapping_sub(2);
    assert(lo_addr.wrapping_add(1) == hi_addr);
    assert(lo_addr.wrapping_add(2) == sp);
    assert(canonical(hi_addr) != canonical(lo_addr));
    assert(word(high_byte(value), low_byte(value)) == value);
}

/// A push stores the value little-endian: the low byte at the new stack
/// pointer, the high byte one above it.
pub proof fn lemma_push_layout(m: Machine, value: u16)
    requires
        m.push16(value) is Ok,
    ensures
        m.push16(value) matches Ok(pushed) && load(pushed.mem, pushed.regs.sp) == Ok::<
            u8,
            Fault,
        >(low_byte(value)) && load(pushed.mem, pushed.regs.sp.wrapping_add(1)) == Ok::<
            u8,
            Fault,
        >(high_byte(value)),
{
    let sp = m.regs.sp;
    let hi_addr = sp.wrapping_sub(1);
    let lo_addr = sp.wrapping_sub(2);
    assert(lo_addr.wrapping_add(1) == hi_addr);
    assert(canonical(hi_addr) != canonical(lo_addr));
}

/// The machine past the two address bytes of a jump or call that is not
/// taken.
pub open spec fn past_address(m: Machine) -> Result<Machine, Fault> {
    match m.next16() {
        Ok((_, after)) => Ok(after),
        Err(fault) => Err(fault),
    }
}

/// The machine past the displacement byte of a relative jump that is not
/// taken.
pub open spec fn past_displacement(m: Machine) -> Result<Machine, Fault> {
    match m.next8() {
        Ok((_, after)) => Ok(after),
        Err(fault) => Err(fault),
    }
}

/// JP cc,nn jumps as JP nn does exactly when the condition holds of the
/// flags; otherwise it only moves past its address bytes.
pub proof fn lemma_conditional_jp(m: Machine, id: FlagId)
    ensures
        m.effect(Command::JpIf(id)) == if m.regs.flags.holds(id) {
            m.effect(Command::Jp)
        } else {
            past_address(m)
        },
        !m.halts(Command::JpIf(id)),
{
}

/// JR cc,e jumps by the displacement exactly when the condition holds of
/// the flags; otherwise it only moves past its displacement byte. It
/// never ends the run.
pub proof fn lemma_conditional_jr(m: Machine, id: FlagId)
    ensures
        m.effect(Command::JrIf(id)) == if m.regs.flags.holds(id) {
            match m.next8() {
                Ok((e, after)) => Ok(after.with_regs(after.regs.jump_relative(e))),
                Err(fault) => Err(fault),
            }
        } else {
            past_displacement(m)
        },
        m.regs.flags.holds(id) && !m.halts(Command::Jr) ==> m.effect(Command::JrIf(id))
            == m.effect(Command::Jr),
        !m.halts(Command::JrIf(id)),
{
}

/// CALL cc,nn calls as CALL nn does exactly when the condition holds of
/// the flags; otherwise it only moves past its address bytes and leaves
/// the stack alone.
pub proof fn lemma_conditional_call(m: Machine, id: FlagId)
    ensures
        m.effect(Command::CallIf(id)) == if m.regs.flags.holds(id) {
            m.effect(Command::Call)
        } else {
            past_address(m)
        },
        !m.halts(Command::CallIf(id)),
{
}

/// RET cc returns as RET does exactly when the condition holds of the
/// flags; otherwise it does nothing.
pub proof fn lemma_conditional_ret(m: Machine, id: FlagId)
    ensures
        m.effect(Command::RetIf(id)) == if m.regs.flags.holds(id) {
            m.effect(Command::Ret)
        } else {
            Ok::<Machine, Fault>(m)
        },
        !m.halts(Command::RetIf(id)),
{
}

/// Each condition is the negation of its counterpart.
pub proof fn lemma_conditions(flags: FlagRegister)
    ensures
        flags.holds(FlagId::Z) == flags.z,
        flags.holds(FlagId::NZ) == !flags.z,
        flags.holds(FlagId::C) == flags.c,
        flags.holds(FlagId::NC) == !flags.c,
{
}

/// A run goes on from where a shorter run left off: `first + second`
/// cycles are `first` cycles and then, where the machine is still
/// running, `second` more.
pub proof fn lemma_run_split(m: Machine, first: nat, second: nat)
    ensures
        m.run(first + second) == if m.run(first).1 == Ok::<State, Fault>(State::Running) {
            m.run(first).0.run(second)
        } else {
            m.run(first)
        },
    decreases first,
{
    if first > 0 {
        match m.step() {
            Ok(step) => {
                if step.state != State::Halted {
                    lemma_run_split(step.machine, (first - 1) as nat, second);
                }
            },
            Err(_) => {},
        }
    }
}

/// STOP ends the run: one cycle moves the program counter past the opcode,
/// touches nothing else, and halts.
pub proof fn lemma_stop_halts(m: Machine, budget: nat)
    requires
        load(m.mem, m.regs.pc) == Ok::<u8, Fault>(0x10),
        budget > 0,
    ensures
        m.step() matches Ok(step) && step.machine == m.skip(1) && step.state == State::Halted,
        m.run(budget) == (m.skip(1), Ok::<State, Fault>(State::Halted)),
{
    reveal(Machine::step);
}

/// A fault ends the run and leaves the machine as the faulting instruction
/// found it.
pub proof fn lemma_fault_ends_run(m: Machine, budget: nat)
    requires
        m.step() is Err,
        budget > 0,
    ensures
        m.run(budget) == (m, Err::<State, Fault>(m.step()->Err_0)),
{
}

/// Once a run has halted or faulted, a larger budget changes nothing: no
/// further instruction is fetched.
pub proof fn lemma_run_is_final(m: Machine, budget: nat, more: nat)
    requires
        m.run(budget).1 != Ok::<State, Fault>(State::Running),
    ensures
        m.run(budget + more) == m.run(budget),
{
    lemma_run_split(m, budget, more);
}

} // verus!
