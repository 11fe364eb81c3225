//! What the machine does: the effect of every instruction on the registers
//! and the memory, as functions on a model of the machine.
//!
//! A faulting instruction has no effect at all: each function below gives
//! either the machine after the operation or the fault, never both.

use vstd::prelude::*;
use crate::alu::{
    accumulator_shift_result, add16_result, add_displacement_result, alu_result, bit_result,
    ccf_result, cpl_result, daa_result, dec_result, inc_result, res_result, scf_result,
    set_result, shift_result, sign_extend, AluOp, Shift,
};
use crate::cpu::{high_byte, low_byte, word, FlagRegister, Place, Registers, State};
use crate::fault::Fault;
use crate::memory::{load, store, Memory, IO_PORTS_START};
use crate::opcodes::{decode_spec, Command, FlagId, Operand, Register16Id, RegisterId};

verus! {

/// The model of the machine: the registers and the memory.
pub struct Machine {
    pub regs: Registers,
    pub mem: Memory,
}

/// The outcome of an instruction that has run.
pub struct Step {
    pub machine: Machine,
    pub state: State,
}

/// Whether `result` and the registers `regs` are what `expected` says of
/// an operation that reads a machine whose memory is `mem`: on success the
/// value and the machine after it, with its memory untouched, on a fault
/// the fault, whatever the registers then hold.
pub open spec fn yields<T>(
    expected: Result<(T, Machine), Fault>,
    result: Result<T, Fault>,
    regs: Registers,
    mem: Memory,
) -> bool {
    match expected {
        Ok((value, after)) => result == Ok::<T, Fault>(value) && after == (Machine { regs, mem }),
        Err(fault) => result == Err::<T, Fault>(fault),
    }
}

/// Whether `result`, the registers `regs` and the memory `mem` are what
/// `expected` says of an operation on a machine whose memory was `before`:
/// on success the machine after it, on a fault the fault and the memory
/// as it was, whatever the registers then hold.
pub open spec fn performs(
    expected: Result<Machine, Fault>,
    before: Memory,
    result: Result<(), Fault>,
    regs: Registers,
    mem: Memory,
) -> bool {
    match expected {
        Ok(after) => result is Ok && after == (Machine { regs, mem }),
        Err(fault) => result == Err::<(), Fault>(fault) && mem == before,
    }
}

/// The address of the I/O port at `offset`.
pub open spec fn io_port(offset: u8) -> u16 {
    (IO_PORTS_START + offset) as u16
}

impl Registers {
    /// These registers with the program counter moved by `delta`, around
    /// the end of the address space.
    pub open spec fn skip(self, delta: u16) -> Registers {
        Registers { pc: self.pc.wrapping_add(delta), ..self }
    }

    /// These registers after a relative jump by the displacement `e`.
    pub open spec fn jump_relative(self, e: u8) -> Registers {
        self.skip(sign_extend(e))
    }

    /// Whether a branch under `condition` is taken: always where there is
    /// no condition, else where the condition holds of the flags.
    pub open spec fn taken(self, condition: Option<FlagId>) -> bool {
        match condition {
            Some(id) => self.flags.holds(id),
            None => true,
        }
    }

    /// These registers after ADD HL,rr.
    pub open spec fn add_hl(self, pair: Register16Id) -> Registers {
        let out = add16_result(self.reg16(Register16Id::HL), self.reg16(pair), self.flags);
        Registers { flags: out.flags, ..self.with_reg16(Register16Id::HL, out.value) }
    }

    /// These registers after a rotate of the accumulator that clears Z.
    pub open spec fn rotate_a(self, kind: Shift) -> Registers {
        let out = accumulator_shift_result(kind, self.a, self.flags.c);
        Registers { a: out.value, flags: out.flags, ..self }
    }
}

impl Machine {
    /// This machine with other registers.
    pub open spec fn with_regs(self, regs: Registers) -> Machine {
        Machine { regs, mem: self.mem }
    }

    /// This machine with other flags.
    pub open spec fn with_flags(self, flags: FlagRegister) -> Machine {
        self.with_regs(Registers { flags, ..self.regs })
    }

    /// This machine with the program counter at `addr`.
    pub open spec fn with_pc(self, addr: u16) -> Machine {
        self.with_regs(Registers { pc: addr, ..self.regs })
    }

    /// This machine with the program counter moved by `delta`, around the
    /// end of the address space.
    pub open spec fn skip(self, delta: u16) -> Machine {
        self.with_regs(self.regs.skip(delta))
    }

    /// The value of the pair HL.
    pub open spec fn hl(self) -> u16 {
        self.regs.reg16(Register16Id::HL)
    }

    /// The next byte of the instruction stream, and the machine with the
    /// program counter past it.
    pub open spec fn next8(self) -> Result<(u8, Machine), Fault> {
        match load(self.mem, self.regs.pc) {
            Ok(value) => Ok((value, self.skip(1))),
            Err(fault) => Err(fault),
        }
    }

    /// The next two bytes of the instruction stream as a little-endian
    /// word, and the machine with the program counter past them.
    pub open spec fn next16(self) -> Result<(u16, Machine), Fault> {
        match load(self.mem, self.regs.pc) {
            Ok(lo) => match load(self.mem, self.regs.pc.wrapping_add(1)) {
                Ok(hi) => Ok((word(hi, lo), self.skip(2))),
                Err(fault) => Err(fault),
            },
            Err(fault) => Err(fault),
        }
    }

    /// The place that the 8-bit operand `op` denotes, and the machine past
    /// the bytes of the instruction stream that the descriptor takes.
    ///
    /// An immediate and a 16-bit register are no places.
    pub open spec fn locate(self, op: Operand) -> Result<(Place, Machine), Fault> {
        match op {
            Operand::Register(RegisterId::HL) => Ok((Place::Memory(self.hl()), self)),
            Operand::Register(reg) => Ok((Place::Register(reg), self)),
            Operand::IndirectAddress(pair) => Ok((Place::Memory(self.regs.reg16(pair)), self)),
            Operand::DirectAddress => match self.next16() {
                Ok((addr, after)) => Ok((Place::Memory(addr), after)),
                Err(fault) => Err(fault),
            },
            Operand::IoPort(RegisterId::HL) => Err(Fault::Operand),
            Operand::IoPort(reg) => Ok((Place::Memory(io_port(self.regs.reg8(reg))), self)),
            Operand::IoPortOffset => match self.next8() {
                Ok((offset, after)) => Ok((Place::Memory(io_port(offset)), after)),
                Err(fault) => Err(fault),
            },
            Operand::Byte => Err(Fault::Operand),
            Operand::Register16(_) => Err(Fault::Operand),
        }
    }

    /// The byte at `place`.
    pub open spec fn load_place(self, place: Place) -> Result<u8, Fault> {
        match place {
            Place::Register(reg) => Ok(self.regs.reg8(reg)),
            Place::Memory(addr) => load(self.mem, addr),
        }
    }

    /// This machine with `value` at `place`.
    pub open spec fn store_place(self, place: Place, value: u8) -> Result<Machine, Fault> {
        match place {
            Place::Register(reg) => Ok(self.with_regs(self.regs.with_reg8(reg, value))),
            Place::Memory(addr) => match store(self.mem, addr, value) {
                Ok(mem) => Ok(Machine { regs: self.regs, mem }),
                Err(fault) => Err(fault),
            },
        }
    }

    /// The value of the 8-bit operand `op`, and the machine past the bytes
    /// of the instruction stream that the descriptor takes.
    pub open spec fn read8(self, op: Operand) -> Result<(u8, Machine), Fault> {
        match op {
            Operand::Byte => self.next8(),
            _ => match self.locate(op) {
                Ok((place, after)) => match after.load_place(place) {
                    Ok(value) => Ok((value, after)),
                    Err(fault) => Err(fault),
                },
                Err(fault) => Err(fault),
            },
        }
    }

    /// The value of the 16-bit operand `op`, and the machine past the bytes
    /// of the instruction stream that the descriptor takes.
    pub open spec fn read16(self, op: Operand) -> Result<(u16, Machine), Fault> {
        match op {
            Operand::Register16(pair) => Ok((self.regs.reg16(pair), self)),
            Operand::Byte => self.next16(),
            _ => Err(Fault::Operand),
        }
    }

    /// This machine with the 16-bit `value` stored at `addr`, low byte
    /// first.
    pub open spec fn store16(self, addr: u16, value: u16) -> Result<Machine, Fault> {
        match store(self.mem, addr, low_byte(value)) {
            Ok(mem) => match store(mem, addr.wrapping_add(1), high_byte(value)) {
                Ok(mem) => Ok(Machine { regs: self.regs, mem }),
                Err(fault) => Err(fault),
            },
            Err(fault) => Err(fault),
        }
    }

    /// This machine after pushing `value`: the high byte goes to SP - 1,
    /// the low byte to SP - 2, and SP ends two lower.
    pub open spec fn push16(self, value: u16) -> Result<Machine, Fault> {
        let sp = self.regs.sp;
        match store(self.mem, sp.wrapping_sub(1), high_byte(value)) {
            Ok(mem) => match store(mem, sp.wrapping_sub(2), low_byte(value)) {
                Ok(mem) => Ok(
                    Machine { regs: Registers { sp: sp.wrapping_sub(2), ..self.regs }, mem },
                ),
                Err(fault) => Err(fault),
            },
            Err(fault) => Err(fault),
        }
    }

    /// The value on top of the stack, and the machine after popping it:
    /// the low byte comes from SP, the high byte from SP + 1, and SP ends
    /// two higher.
    pub open spec fn pop16(self) -> Result<(u16, Machine), Fault> {
        let sp = self.regs.sp;
        match load(self.mem, sp) {
            Ok(lo) => match load(self.mem, sp.wrapping_add(1)) {
                Ok(hi) => Ok(
                    (
                        word(hi, lo),
                        self.with_regs(Registers { sp: sp.wrapping_add(2), ..self.regs }),
                    ),
                ),
                Err(fault) => Err(fault),
            },
            Err(fault) => Err(fault),
        }
    }

    /// An operation between the accumulator and the operand `op`.
    pub open spec fn alu(self, kind: AluOp, op: Operand) -> Result<Machine, Fault> {
        match self.read8(op) {
            Ok((n, after)) => {
                let out = alu_result(kind, after.regs.a, n, after.regs.flags);
                Ok(after.with_regs(Registers { a: out.value, flags: out.flags, ..after.regs }))
            },
            Err(fault) => Err(fault),
        }
    }

    /// ADD SP,e and LD HL,SP+e: the sum of SP and the displacement read
    /// from the instruction stream goes to `target`.
    pub open spec fn add_sp_into(self, target: Register16Id) -> Result<Machine, Fault> {
        match self.next8() {
            Ok((e, after)) => {
                let out = add_displacement_result(after.regs.sp, e);
                Ok(after.with_regs(after.regs.with_reg16(target, out.value)).with_flags(out.flags))
            },
            Err(fault) => Err(fault),
        }
    }

    /// BIT b,r.
    pub open spec fn bit(self, bit: u8, reg: RegisterId) -> Result<Machine, Fault> {
        if bit >= 8 {
            Err(Fault::Operand)
        } else {
            match self.read8(Operand::Register(reg)) {
                Ok((value, after)) => Ok(
                    after.with_flags(bit_result(bit, value, after.regs.flags)),
                ),
                Err(fault) => Err(fault),
            }
        }
    }

    /// SET b,r where `on` holds, RES b,r where it does not.
    pub open spec fn change_bit(self, bit: u8, reg: RegisterId, on: bool) -> Result<
        Machine,
        Fault,
    > {
        if bit >= 8 {
            Err(Fault::Operand)
        } else {
            match self.locate(Operand::Register(reg)) {
                Ok((place, after)) => match after.load_place(place) {
                    Ok(value) => after.store_place(
                        place,
                        if on {
                            set_result(bit, value)
                        } else {
                            res_result(bit, value)
                        },
                    ),
                    Err(fault) => Err(fault),
                },
                Err(fault) => Err(fault),
            }
        }
    }

    /// JP nn and JP cc,nn. The address is read whether or not the jump is
    /// taken.
    pub open spec fn jp(self, condition: Option<FlagId>) -> Result<Machine, Fault> {
        match self.next16() {
            Ok((addr, after)) => if self.regs.taken(condition) {
                Ok(after.with_pc(addr))
            } else {
                Ok(after)
            },
            Err(fault) => Err(fault),
        }
    }

    /// JR cc,e. The displacement is read whether or not the jump is taken.
    pub open spec fn jr_if(self, id: FlagId) -> Result<Machine, Fault> {
        match self.next8() {
            Ok((e, after)) => if self.regs.flags.holds(id) {
                Ok(after.with_regs(after.regs.jump_relative(e)))
            } else {
                Ok(after)
            },
            Err(fault) => Err(fault),
        }
    }

    /// JR e. A jump onto itself (a displacement of -2) ends the run, with
    /// the program counter past the instruction.
    pub open spec fn jr(self) -> Result<Step, Fault> {
        match self.next8() {
            Ok((e, after)) => if e == 0xFE {
                Ok(Step { machine: after, state: State::Halted })
            } else {
                Ok(Step { machine: after.with_regs(after.regs.jump_relative(e)), state: State::Running })
            },
            Err(fault) => Err(fault),
        }
    }

    /// The machine after a call to `addr`: the program counter is pushed.
    pub open spec fn call_to(self, addr: u16) -> Result<Machine, Fault> {
        match self.push16(self.regs.pc) {
            Ok(after) => Ok(after.with_pc(addr)),
            Err(fault) => Err(fault),
        }
    }

    /// CALL nn and CALL cc,nn. The address is read whether or not the call
    /// is made; the return address is that of the next instruction.
    pub open spec fn call(self, condition: Option<FlagId>) -> Result<Machine, Fault> {
        match self.next16() {
            Ok((addr, after)) => if self.regs.taken(condition) {
                after.call_to(addr)
            } else {
                Ok(after)
            },
            Err(fault) => Err(fault),
        }
    }

    /// RET, RETI and RET cc.
    pub open spec fn ret(self, condition: Option<FlagId>) -> Result<Machine, Fault> {
        if self.regs.taken(condition) {
            match self.pop16() {
                Ok((addr, after)) => Ok(after.with_pc(addr)),
                Err(fault) => Err(fault),
            }
        } else {
            Ok(self)
        }
    }

    /// INC where `up` holds, DEC where it does not. A 16-bit register is
    /// counted around the end of its range and leaves the flags alone.
    pub open spec fn count(self, op: Operand, up: bool) -> Result<Machine, Fault> {
        match op {
            Operand::Register16(pair) => {
                let value = self.regs.reg16(pair);
                Ok(
                    self.with_regs(
                        self.regs.with_reg16(
                            pair,
                            if up {
                                value.wrapping_add(1)
                            } else {
                                value.wrapping_sub(1)
                            },
                        ),
                    ),
                )
            },
            _ => match self.locate(op) {
                Ok((place, after)) => match after.load_place(place) {
                    Ok(value) => {
                        let out = if up {
                            inc_result(value, after.regs.flags)
                        } else {
                            dec_result(value, after.regs.flags)
                        };
                        match after.store_place(place, out.value) {
                            Ok(stored) => Ok(stored.with_flags(out.flags)),
                            Err(fault) => Err(fault),
                        }
                    },
                    Err(fault) => Err(fault),
                },
                Err(fault) => Err(fault),
            },
        }
    }

    /// LD destination, source. A 16-bit register takes a 16-bit source;
    /// every other destination is resolved first, then the 8-bit source is
    /// read, then the byte is stored.
    pub open spec fn ld(self, destination: Operand, source: Operand) -> Result<Machine, Fault> {
        match destination {
            Operand::Register16(pair) => match self.read16(source) {
                Ok((value, after)) => Ok(after.with_regs(after.regs.with_reg16(pair, value))),
                Err(fault) => Err(fault),
            },
            _ => match self.locate(destination) {
                Ok((place, located)) => match located.read8(source) {
                    Ok((value, after)) => after.store_place(place, value),
                    Err(fault) => Err(fault),
                },
                Err(fault) => Err(fault),
            },
        }
    }

    /// LD (nn),SP.
    pub open spec fn ld_addr_sp(self) -> Result<Machine, Fault> {
        match self.next16() {
            Ok((addr, after)) => after.store16(addr, after.regs.sp),
            Err(fault) => Err(fault),
        }
    }

    /// LD A,(HL+) and LD A,(HL-): HL moves by `delta` after the load.
    pub open spec fn ld_a_hl(self, delta: u16) -> Result<Machine, Fault> {
        match load(self.mem, self.hl()) {
            Ok(value) => Ok(
                self.with_regs(
                    Registers { a: value, ..self.regs }.with_reg16(
                        Register16Id::HL,
                        self.hl().wrapping_add(delta),
                    ),
                ),
            ),
            Err(fault) => Err(fault),
        }
    }

    /// LD (HL+),A and LD (HL-),A: HL moves by `delta` after the store.
    pub open spec fn ld_hl_a(self, delta: u16) -> Result<Machine, Fault> {
        match store(self.mem, self.hl(), self.regs.a) {
            Ok(mem) => Ok(
                Machine {
                    regs: self.regs.with_reg16(Register16Id::HL, self.hl().wrapping_add(delta)),
                    mem,
                },
            ),
            Err(fault) => Err(fault),
        }
    }

    /// POP rr.
    pub open spec fn pop(self, pair: Register16Id) -> Result<Machine, Fault> {
        match self.pop16() {
            Ok((value, after)) => Ok(after.with_regs(after.regs.with_reg16(pair, value))),
            Err(fault) => Err(fault),
        }
    }

    /// A rotate or shift of the byte that `op` denotes.
    pub open spec fn shift(self, kind: Shift, op: Operand) -> Result<Machine, Fault> {
        match self.locate(op) {
            Ok((place, after)) => match after.load_place(place) {
                Ok(value) => {
                    let out = shift_result(kind, value, after.regs.flags.c);
                    match after.store_place(place, out.value) {
                        Ok(stored) => Ok(stored.with_flags(out.flags)),
                        Err(fault) => Err(fault),
                    }
                },
                Err(fault) => Err(fault),
            },
            Err(fault) => Err(fault),
        }
    }

    /// The machine after an instruction that does not end the run. The
    /// program counter is already past the opcode.
    pub open spec fn effect(self, command: Command) -> Result<Machine, Fault> {
        match command {
            Command::Alu(kind, op) => self.alu(kind, op),
            Command::AddHl(pair) => Ok(self.with_regs(self.regs.add_hl(pair))),
            Command::AddSp => self.add_sp_into(Register16Id::SP),
            Command::Bit(bit, reg) => self.bit(bit, reg),
            Command::Call => self.call(None),
            Command::CallIf(id) => self.call(Some(id)),
            Command::Ccf => Ok(self.with_flags(ccf_result(self.regs.flags))),
            Command::Cpl => {
                let out = cpl_result(self.regs.a, self.regs.flags);
                Ok(self.with_regs(Registers { a: out.value, flags: out.flags, ..self.regs }))
            },
            Command::Daa => {
                let out = daa_result(self.regs.a, self.regs.flags);
                Ok(self.with_regs(Registers { a: out.value, flags: out.flags, ..self.regs }))
            },
            Command::Dec(op) => self.count(op, false),
            Command::Di => Ok(self),
            Command::Ei => Ok(self),
            Command::Inc(op) => self.count(op, true),
            Command::Jp => self.jp(None),
            Command::JpIf(id) => self.jp(Some(id)),
            Command::JpHl => Ok(self.with_pc(self.hl())),
            Command::Jr => match self.jr() {
                Ok(step) => Ok(step.machine),
                Err(fault) => Err(fault),
            },
            Command::JrIf(id) => self.jr_if(id),
            Command::Ld(destination, source) => self.ld(destination, source),
            Command::LdAddrSp => self.ld_addr_sp(),
            Command::LddAHl => self.ld_a_hl(0xFFFF),
            Command::LddHlA => self.ld_hl_a(0xFFFF),
            Command::LdiAHl => self.ld_a_hl(1),
            Command::LdiHlA => self.ld_hl_a(1),
            Command::LdHlSp => self.add_sp_into(Register16Id::HL),
            Command::Nop => Ok(self),
            Command::Pop(pair) => self.pop(pair),
            Command::Push(pair) => self.push16(self.regs.reg16(pair)),
            Command::ResBit(bit, reg) => self.change_bit(bit, reg, false),
            Command::Ret => self.ret(None),
            Command::Reti => self.ret(None),
            Command::RetIf(id) => self.ret(Some(id)),
            Command::RotateA(kind) => Ok(self.with_regs(self.regs.rotate_a(kind))),
            Command::Rst(target) => self.call_to(target as u16),
            Command::Scf => Ok(self.with_flags(scf_result(self.regs.flags))),
            Command::SetBit(bit, reg) => self.change_bit(bit, reg, true),
            Command::Shift(kind, op) => self.shift(kind, op),
            Command::Stop => Ok(self),
        }
    }

    /// Whether `command` ends the run on this machine: STOP does, and so
    /// does an unconditional relative jump onto itself.
    pub open spec fn halts(self, command: Command) -> bool {
        match command {
            Command::Stop => true,
            Command::Jr => self.jr() matches Ok(step) && step.state == State::Halted,
            _ => false,
        }
    }

    /// The outcome of executing `command`. The program counter is already
    /// past the opcode.
    pub open spec fn execute(self, command: Command) -> Result<Step, Fault> {
        match self.effect(command) {
            Ok(machine) => Ok(
                Step {
                    machine,
                    state: if self.halts(command) {
                        State::Halted
                    } else {
                        State::Running
                    },
                },
            ),
            Err(fault) => Err(fault),
        }
    }

    /// The instruction at the program counter, and how many bytes its
    /// opcode takes: two after the prefix `0xCB`, else one. The byte after
    /// the opcode is read only after the prefix.
    pub open spec fn fetch(self) -> Result<(Command, u16), Fault> {
        let pc = self.regs.pc;
        match load(self.mem, pc) {
            Ok(opcode) => if opcode == 0xCB {
                match load(self.mem, pc.wrapping_add(1)) {
                    Ok(following) => match decode_spec(opcode, following) {
                        Ok(command) => Ok((command, 2u16)),
                        Err(error) => Err(Fault::Decode { pc, error }),
                    },
                    Err(fault) => Err(fault),
                }
            } else {
                match decode_spec(opcode, 0) {
                    Ok(command) => Ok((command, 1u16)),
                    Err(error) => Err(Fault::Decode { pc, error }),
                }
            },
            Err(fault) => Err(fault),
        }
    }

    /// One cycle of the engine: fetch and decode the instruction at the
    /// program counter, move the program counter past its opcode, execute
    /// it.
    #[verifier::opaque]
    pub open spec fn step(self) -> Result<Step, Fault> {
        match self.fetch() {
            Ok((command, width)) => self.skip(width).execute(command),
            Err(fault) => Err(fault),
        }
    }

    /// The machine after at most `budget` cycles, and how the run ended:
    /// `Ok(State::Halted)` where the program ended, `Ok(State::Running)`
    /// where the budget ran out first, and the fault of the instruction
    /// that faulted, with the machine as that instruction found it.
    pub open spec fn run(self, budget: nat) -> (Machine, Result<State, Fault>)
        decreases budget,
    {
        if budget == 0 {
            (self, Ok(State::Running))
        } else {
            match self.step() {
                Ok(step) => if step.state == State::Halted {
                    (step.machine, Ok(State::Halted))
                } else {
                    step.machine.run((budget - 1) as nat)
                },
                Err(fault) => (self, Err(fault)),
            }
        }
    }
}

} // verus!
