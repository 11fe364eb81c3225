//! The register file and the execution engine.

use vstd::prelude::*;
use crate::alu::{
    accumulator_shift, add16, add_displacement, alu8, ccf, cpl, daa, dec8, extend_sign, inc8,
    reset_bit, scf, set_bit, shift8, test_bit, AluOp, Shift,
};
use crate::fault::Fault;
use crate::memory::{Memory, Mmu, IO_PORTS_START};
use crate::opcodes::{decode, Command, FlagId, Operand, Register16Id, RegisterId};
use crate::semantics::{performs, yields, Machine};

verus! {

/// The four condition flags.
#[derive(Clone, Copy, Debug, PartialEq, Eq, Structural)]
pub struct FlagRegister {
    /// Zero Flag
    pub z: bool,
    /// Subtract Flag
    pub n: bool,
    /// Half Carry Flag
    pub h: bool,
    /// Carry Flag
    pub c: bool,
}

/// The names of the four condition flags.
#[derive(Clone, Copy, Debug, PartialEq, Eq, Structural)]
pub enum Flag {
    Z,
    N,
    H,
    C,
}

/// The register file: seven 8-bit cells, the stack pointer, the program
/// counter and the flags. The register pairs are views over the cells.
#[derive(Clone, Copy, Debug, PartialEq, Eq, Structural)]
pub struct Registers {
    pub a: u8,
    pub b: u8,
    pub c: u8,
    pub d: u8,
    pub e: u8,
    pub h: u8,
    pub l: u8,
    /// Stack Pointer (points to the top of the stack)
    pub sp: u16,
    /// Program Counter (points to the next instruction)
    pub pc: u16,
    pub flags: FlagRegister,
}

/// The 16-bit value whose high byte is `hi` and whose low byte is `lo`.
pub open spec fn word(hi: u8, lo: u8) -> u16 {
    (hi * 256 + lo) as u16
}

/// The high byte of `value`.
pub open spec fn high_byte(value: u16) -> u8 {
    (value / 256) as u8
}

/// The low byte of `value`.
pub open spec fn low_byte(value: u16) -> u8 {
    (value % 256) as u8
}

/// Joins two bytes into a 16-bit value.
pub fn make_word(hi: u8, lo: u8) -> (r: u16)
    ensures
        r == word(hi, lo),
        high_byte(r) == hi,
        low_byte(r) == lo,
{
    (hi as u16) * 256 + (lo as u16)
}

/// Splits a 16-bit value into its high and its low byte.
pub fn split_word(value: u16) -> (r: (u8, u8))
    ensures
        r.0 == high_byte(value),
        r.1 == low_byte(value),
        word(r.0, r.1) == value,
{
    ((value / 256) as u8, (value % 256) as u8)
}

/// The value of a flag as one bit of the packed flag byte.
pub open spec fn flag_bit(flag: bool, mask: u8) -> u8 {
    if flag {
        mask
    } else {
        0
    }
}

/// The four flag bits of a byte, by mask and by arithmetic.
proof fn lemma_flag_masks(val: u8)
    by (bit_vector)
    ensures
        (val & 0b1000_0000 > 0) == (val >= 128),
        (val & 0b0100_0000 > 0) == ((val / 64) % 2 == 1),
        (val & 0b0010_0000 > 0) == ((val / 32) % 2 == 1),
        (val & 0b0001_0000 > 0) == ((val / 16) % 2 == 1),
{
}

impl FlagRegister {
    /// The packed byte F: bit 7 is Z, bit 6 is N, bit 5 is H, bit 4 is C,
    /// and the low four bits are zero.
    pub open spec fn pack(self) -> u8 {
        (flag_bit(self.z, 0x80) + flag_bit(self.n, 0x40) + flag_bit(self.h, 0x20) + flag_bit(
            self.c,
            0x10,
        )) as u8
    }

    /// The flags that the packed byte `val` stands for. The low four bits
    /// of `val` play no part.
    pub open spec fn unpack(val: u8) -> FlagRegister {
        FlagRegister {
            z: val >= 128,
            n: (val / 64) % 2 == 1,
            h: (val / 32) % 2 == 1,
            c: (val / 16) % 2 == 1,
        }
    }

    /// Whether the condition `id` holds of these flags.
    pub open spec fn holds(self, id: FlagId) -> bool {
        match id {
            FlagId::Z => self.z,
            FlagId::NZ => !self.z,
            FlagId::C => self.c,
            FlagId::NC => !self.c,
        }
    }

    /// A flag as the bit `left` of a byte.
    fn shift(&self, bit: bool, left: u8) -> (r: u8)
        requires
            left < 8,
        ensures
            r == flag_bit(bit, 1u8 << left),
    {
        if bit {
            1u8 << left
        } else {
            0
        }
    }

    /// The flags packed into the byte F.
    pub fn get_f(&self) -> (r: u8)
        ensures
            r == self.pack(),
    {
        assert(1u8 << 7u8 == 0x80 && 1u8 << 6u8 == 0x40 && 1u8 << 5u8 == 0x20 && 1u8 << 4u8
            == 0x10) by (bit_vector);
        self.shift(self.z, 7) + self.shift(self.n, 6) + self.shift(self.h, 5) + self.shift(
            self.c,
            4,
        )
    }

    /// Sets the flags from the packed byte `val`.
    pub fn set_f(&mut self, val: u8)
        ensures
            *final(self) == FlagRegister::unpack(val),
    {
        proof {
            lemma_flag_masks(val);
        }
        self.z = val & 0b10000000 > 0;
        self.n = val & 0b01000000 > 0;
        self.h = val & 0b00100000 > 0;
        self.c = val & 0b00010000 > 0;
    }

    /// Whether the condition `id` holds.
    pub fn get(&self, id: FlagId) -> (r: bool)
        ensures
            r == self.holds(id),
    {
        match id {
            FlagId::Z => self.z,
            FlagId::NZ => !self.z,
            FlagId::C => self.c,
            FlagId::NC => !self.c,
        }
    }
}

impl Registers {
    /// The value of the 8-bit register `id`. `RegisterId::HL` names no
    /// register cell.
    pub open spec fn reg8(self, id: RegisterId) -> u8
        recommends
            id != RegisterId::HL,
    {
        match id {
            RegisterId::A => self.a,
            RegisterId::B => self.b,
            RegisterId::C => self.c,
            RegisterId::D => self.d,
            RegisterId::E => self.e,
            RegisterId::H => self.h,
            RegisterId::L => self.l,
            RegisterId::HL => 0,
        }
    }

    /// These registers with the 8-bit register `id` holding `val`.
    pub open spec fn with_reg8(self, id: RegisterId, val: u8) -> Registers
        recommends
            id != RegisterId::HL,
    {
        match id {
            RegisterId::A => Registers { a: val, ..self },
            RegisterId::B => Registers { b: val, ..self },
            RegisterId::C => Registers { c: val, ..self },
            RegisterId::D => Registers { d: val, ..self },
            RegisterId::E => Registers { e: val, ..self },
            RegisterId::H => Registers { h: val, ..self },
            RegisterId::L => Registers { l: val, ..self },
            RegisterId::HL => self,
        }
    }

    /// The value of the 16-bit register or pair `id`. The low byte of AF is
    /// the packed flag byte.
    pub open spec fn reg16(self, id: Register16Id) -> u16 {
        match id {
            Register16Id::AF => word(self.a, self.flags.pack()),
            Register16Id::BC => word(self.b, self.c),
            Register16Id::DE => word(self.d, self.e),
            Register16Id::HL => word(self.h, self.l),
            Register16Id::SP => self.sp,
        }
    }

    /// These registers with the 16-bit register or pair `id` holding `val`.
    /// Of the low byte of AF only the four flag bits are kept.
    pub open spec fn with_reg16(self, id: Register16Id, val: u16) -> Registers {
        match id {
            Register16Id::AF => Registers {
                a: high_byte(val),
                flags: FlagRegister::unpack(low_byte(val)),
                ..self
            },
            Register16Id::BC => Registers { b: high_byte(val), c: low_byte(val), ..self },
            Register16Id::DE => Registers { d: high_byte(val), e: low_byte(val), ..self },
            Register16Id::HL => Registers { h: high_byte(val), l: low_byte(val), ..self },
            Register16Id::SP => Registers { sp: val, ..self },
        }
    }

    /// The value of the flag `flag`.
    pub open spec fn flag_value(self, flag: Flag) -> bool {
        match flag {
            Flag::Z => self.flags.z,
            Flag::N => self.flags.n,
            Flag::H => self.flags.h,
            Flag::C => self.flags.c,
        }
    }

    /// These registers with the flag `flag` set to `val`.
    pub open spec fn with_flag(self, flag: Flag, val: bool) -> Registers {
        match flag {
            Flag::Z => Registers { flags: FlagRegister { z: val, ..self.flags }, ..self },
            Flag::N => Registers { flags: FlagRegister { n: val, ..self.flags }, ..self },
            Flag::H => Registers { flags: FlagRegister { h: val, ..self.flags }, ..self },
            Flag::C => Registers { flags: FlagRegister { c: val, ..self.flags }, ..self },
        }
    }

    /// Reads an 8-bit register.
    pub fn read(&self, reg: RegisterId) -> (r: u8)
        requires
            reg != RegisterId::HL,
        ensures
            r == self.reg8(reg),
    {
        match reg {
            RegisterId::A => self.a,
            RegisterId::B => self.b,
            RegisterId::C => self.c,
            RegisterId::D => self.d,
            RegisterId::E => self.e,
            RegisterId::H => self.h,
            RegisterId::L => self.l,
            RegisterId::HL => 0,
        }
    }

    /// Writes an 8-bit register.
    pub fn write(&mut self, reg: RegisterId, val: u8)
        requires
            reg != RegisterId::HL,
        ensures
            *final(self) == old(self).with_reg8(reg, val),
    {
        match reg {
            RegisterId::A => self.a = val,
            RegisterId::B => self.b = val,
            RegisterId::C => self.c = val,
            RegisterId::D => self.d = val,
            RegisterId::E => self.e = val,
            RegisterId::H => self.h = val,
            RegisterId::L => self.l = val,
            RegisterId::HL => {},
        }
    }

    /// Reads a flag.
    pub fn flag(&self, flag: Flag) -> (r: bool)
        ensures
            r == self.flag_value(flag),
    {
        match flag {
            Flag::Z => self.flags.z,
            Flag::N => self.flags.n,
            Flag::H => self.flags.h,
            Flag::C => self.flags.c,
        }
    }

    /// Writes a flag.
    pub fn set_flag(&mut self, flag: Flag, val: bool)
        ensures
            *final(self) == old(self).with_flag(flag, val),
    {
        match flag {
            Flag::Z => self.flags.z = val,
            Flag::N => self.flags.n = val,
            Flag::H => self.flags.h = val,
            Flag::C => self.flags.c = val,
        }
    }

    /// Reads a 16-bit register or pair.
    pub fn get(&self, reg: Register16Id) -> (r: u16)
        ensures
            r == self.reg16(reg),
    {
        match reg {
            Register16Id::AF => make_word(self.a, self.flags.get_f()),
            Register16Id::BC => make_word(self.b, self.c),
            Register16Id::DE => make_word(self.d, self.e),
            Register16Id::HL => make_word(self.h, self.l),
            Register16Id::SP => self.sp,
        }
    }

    /// Writes a 16-bit register or pair.
    pub fn set(&mut self, reg: Register16Id, val: u16)
        ensures
            *final(self) == old(self).with_reg16(reg, val),
    {
        let (hi, lo) = split_word(val);
        match reg {
            Register16Id::AF => {
                self.a = hi;
                self.flags.set_f(lo);
            },
            Register16Id::BC => {
                self.b = hi;
                self.c = lo;
            },
            Register16Id::DE => {
                self.d = hi;
                self.e = lo;
            },
            Register16Id::HL => {
                self.h = hi;
                self.l = lo;
            },
            Register16Id::SP => self.sp = val,
        }
    }
}

/// The registers at power-on.
pub open spec fn power_on_registers() -> Registers {
    Registers {
        a: 0x01,
        b: 0xFF,
        c: 0x13,
        d: 0x00,
        e: 0xC1,
        h: 0x84,
        l: 0x03,
        sp: 0xFFFE,
        pc: 0x0100,
        flags: FlagRegister { z: false, n: false, h: false, c: false },
    }
}

/// The two states of the engine.
#[derive(Clone, Copy, Debug, PartialEq, Eq, Structural)]
pub enum State {
    /// The next instruction is yet to be fetched.
    Running,
    /// The program has ended; no further instruction is fetched.
    Halted,
}

/// Where an 8-bit operand lives, once its descriptor has been resolved.
#[derive(Clone, Copy, Debug, PartialEq, Eq, Structural)]
pub enum Place {
    /// A register cell; never `RegisterId::HL`.
    Register(RegisterId),
    /// The memory cell at an address.
    Memory(u16),
}

impl Place {
    /// Whether this place names a cell.
    pub open spec fn valid(self) -> bool {
        self != Place::Register(RegisterId::HL)
    }
}

/// The processor: its registers. The memory is handed to each operation.
pub struct Cpu {
    /// CPU registers
    pub regs: Registers,
}

/// A processor at power-on.
pub fn init_cpu() -> (cpu: Cpu)
    ensures
        cpu.regs == power_on_registers(),
{
    Cpu {
        regs: Registers {
            a: 0x01,
            b: 0xFF,
            c: 0x13,
            d: 0x00,
            e: 0xC1,
            h: 0x84,
            l: 0x03,
            sp: 0xFFFE,
            pc: 0x0100,
            flags: FlagRegister { z: false, n: false, h: false, c: false },
        },
    }
}

impl Cpu {
    /// The model of this processor together with the memory `mem`.
    pub open spec fn machine(&self, mem: Memory) -> Machine {
        Machine { regs: self.regs, mem }
    }

    /// Sets the program counter.
    fn set_pc(&mut self, addr: u16)
        ensures
            final(self).regs == (Registers { pc: addr, ..old(self).regs }),
    {
        self.regs.pc = addr;
    }

    /// Moves the program counter by `delta`, around the end of the address
    /// space.
    fn advance_pc(&mut self, delta: u16)
        ensures
            final(self).regs == old(self).regs.skip(delta),
    {
        self.regs.pc = self.regs.pc.wrapping_add(delta);
    }

    /// Reads the next byte of the instruction stream.
    fn read_8(&mut self, mmu: &Mmu) -> (r: Result<u8, Fault>)
        ensures
            yields(old(self).machine(mmu@).next8(), r, final(self).regs, mmu@),
    {
        let n = mmu.get(self.regs.pc)?;
        self.regs.pc = self.regs.pc.wrapping_add(1);
        Ok(n)
    }

    /// Reads the next little-endian word of the instruction stream.
    fn read_16(&mut self, mmu: &Mmu) -> (r: Result<u16, Fault>)
        ensures
            yields(old(self).machine(mmu@).next16(), r, final(self).regs, mmu@),
    {
        let lo = mmu.get(self.regs.pc)?;
        let hi = mmu.get(self.regs.pc.wrapping_add(1))?;
        self.regs.pc = self.regs.pc.wrapping_add(2);
        Ok(make_word(hi, lo))
    }

    /// Resolves the 8-bit operand `op` to the place that it denotes, reading
    /// the bytes of the instruction stream that the descriptor takes.
    fn locate(&mut self, op: Operand, mmu: &Mmu) -> (r: Result<Place, Fault>)
        ensures
            yields(old(self).machine(mmu@).locate(op), r, final(self).regs, mmu@),
            r matches Ok(place) ==> place.valid(),
    {
        match op {
            Operand::Register(RegisterId::HL) => Ok(
                Place::Memory(self.regs.get(Register16Id::HL)),
            ),
            Operand::Register(reg) => Ok(Place::Register(reg)),
            Operand::IndirectAddress(pair) => Ok(Place::Memory(self.regs.get(pair))),
            Operand::DirectAddress => {
                let addr = self.read_16(mmu)?;
                Ok(Place::Memory(addr))
            },
            Operand::IoPort(RegisterId::HL) => Err(Fault::Operand),
            Operand::IoPort(reg) => Ok(Place::Memory(IO_PORTS_START + self.regs.read(reg) as u16)),
            Operand::IoPortOffset => {
                let offset = self.read_8(mmu)?;
                Ok(Place::Memory(IO_PORTS_START + offset as u16))
            },
            Operand::Byte => Err(Fault::Operand),
            Operand::Register16(_) => Err(Fault::Operand),
        }
    }

    /// Reads the byte at `place`.
    fn load_place(&self, place: Place, mmu: &Mmu) -> (r: Result<u8, Fault>)
        requires
            place.valid(),
        ensures
            r == self.machine(mmu@).load_place(place),
    {
        match place {
            Place::Register(reg) => Ok(self.regs.read(reg)),
            Place::Memory(addr) => mmu.get(addr),
        }
    }

    /// Writes `value` at `place`.
    fn store_place(&mut self, place: Place, value: u8, mmu: &mut Mmu) -> (r: Result<(), Fault>)
        requires
            place.valid(),
        ensures
            performs(
                old(self).machine(old(mmu)@).store_place(place, value),
                old(mmu)@,
                r,
                final(self).regs,
                final(mmu)@,
            ),
            r is Err ==> final(self).regs == old(self).regs,
    {
        match place {
            Place::Register(reg) => {
                self.regs.write(reg, value);
                Ok(())
            },
            Place::Memory(addr) => mmu.set(addr, value),
        }
    }

    /// Reads the 8-bit operand `op`.
    fn get_operand(&mut self, op: Operand, mmu: &Mmu) -> (r: Result<u8, Fault>)
        ensures
            yields(old(self).machine(mmu@).read8(op), r, final(self).regs, mmu@),
    {
        match op {
            Operand::Byte => self.read_8(mmu),
            _ => {
                let place = self.locate(op, mmu)?;
                self.load_place(place, mmu)
            },
        }
    }

    /// Reads the 16-bit operand `op`.
    fn get_operand_16(&mut self, op: Operand, mmu: &Mmu) -> (r: Result<u16, Fault>)
        ensures
            yields(old(self).machine(mmu@).read16(op), r, final(self).regs, mmu@),
    {
        match op {
            Operand::Register16(pair) => Ok(self.regs.get(pair)),
            Operand::Byte => self.read_16(mmu),
            _ => Err(Fault::Operand),
        }
    }

    /// Stores a 16-bit value at `addr`, low byte first. Nothing is written
    /// unless both bytes have a cell.
    fn store_16(&self, addr: u16, value: u16, mmu: &mut Mmu) -> (r: Result<(), Fault>)
        ensures
            performs(
                self.machine(old(mmu)@).store16(addr, value),
                old(mmu)@,
                r,
                self.regs,
                final(mmu)@,
            ),
    {
        let (hi, lo) = split_word(value);
        let second = addr.wrapping_add(1);
        if !mmu.is_mapped(addr) {
            return Err(Fault::Address(addr));
        }
        if !mmu.is_mapped(second) {
            return Err(Fault::Address(second));
        }
        mmu.set(addr, lo)?;
        mmu.set(second, hi)
    }

    /// Pushes `val`: the high byte at SP - 1, the low byte at SP - 2.
    /// Nothing is written unless both bytes have a cell.
    fn push_stack(&mut self, val: u16, mmu: &mut Mmu) -> (r: Result<(), Fault>)
        ensures
            performs(
                old(self).machine(old(mmu)@).push16(val),
                old(mmu)@,
                r,
                final(self).regs,
                final(mmu)@,
            ),
    {
        let (hi, lo) = split_word(val);
        let top = self.regs.sp.wrapping_sub(1);
        let bottom = self.regs.sp.wrapping_sub(2);
        if !mmu.is_mapped(top) {
            return Err(Fault::Address(top));
        }
        if !mmu.is_mapped(bottom) {
            return Err(Fault::Address(bottom));
        }
        mmu.set(top, hi)?;
        mmu.set(bottom, lo)?;
        self.regs.sp = bottom;
        Ok(())
    }

    /// Pops a 16-bit value: the low byte from SP, the high byte from SP + 1.
    fn pop_stack(&mut self, mmu: &Mmu) -> (r: Result<u16, Fault>)
        ensures
            yields(old(self).machine(mmu@).pop16(), r, final(self).regs, mmu@),
    {
        let lo = mmu.get(self.regs.sp)?;
        let hi = mmu.get(self.regs.sp.wrapping_add(1))?;
        self.regs.sp = self.regs.sp.wrapping_add(2);
        Ok(make_word(hi, lo))
    }

    /// ADD, ADC, SUB, SBC, AND, XOR, OR, CP.
    fn alu(&mut self, kind: AluOp, op: Operand, mmu: &Mmu) -> (r: Result<(), Fault>)
        ensures
            performs(old(self).machine(mmu@).alu(kind, op), mmu@, r, final(self).regs, mmu@),
    {
        let n = self.get_operand(op, mmu)?;
        let out = alu8(kind, self.regs.a, n, self.regs.flags);
        self.regs.a = out.value;
        self.regs.flags = out.flags;
        Ok(())
    }

    /// ADD HL,rr.
    fn add_hl(&mut self, pair: Register16Id)
        ensures
            final(self).regs == old(self).regs.add_hl(pair),
    {
        let hl = self.regs.get(Register16Id::HL);
        let n = self.regs.get(pair);
        let out = add16(hl, n, self.regs.flags);
        self.regs.set(Register16Id::HL, out.value);
        self.regs.flags = out.flags;
    }

    /// ADD SP,e (`target` is SP) and LD HL,SP+e (`target` is HL).
    fn add_sp_into(&mut self, target: Register16Id, mmu: &Mmu) -> (r: Result<(), Fault>)
        ensures
            performs(
                old(self).machine(mmu@).add_sp_into(target),
                mmu@,
                r,
                final(self).regs,
                mmu@,
            ),
    {
        let e = self.read_8(mmu)?;
        let out = add_displacement(self.regs.sp, e);
        self.regs.set(target, out.value);
        self.regs.flags = out.flags;
        Ok(())
    }

    /// BIT b,r.
    fn bit(&mut self, bit: u8, reg: RegisterId, mmu: &Mmu) -> (r: Result<(), Fault>)
        ensures
            performs(old(self).machine(mmu@).bit(bit, reg), mmu@, r, final(self).regs, mmu@),
    {
        if bit >= 8 {
            return Err(Fault::Operand);
        }
        let n = self.get_operand(Operand::Register(reg), mmu)?;
        self.regs.flags = test_bit(bit, n, self.regs.flags);
        Ok(())
    }

    /// SET b,r where `on` holds, RES b,r where it does not.
    fn change_bit(&mut self, bit: u8, reg: RegisterId, on: bool, mmu: &mut Mmu) -> (r: Result<
        (),
        Fault,
    >)
        ensures
            performs(
                old(self).machine(old(mmu)@).change_bit(bit, reg, on),
                old(mmu)@,
                r,
                final(self).regs,
                final(mmu)@,
            ),
    {
        if bit >= 8 {
            return Err(Fault::Operand);
        }
        let place = self.locate(Operand::Register(reg), mmu)?;
        let n = self.load_place(place, mmu)?;
        let changed = if on {
            set_bit(bit, n)
        } else {
            reset_bit(bit, n)
        };
        self.store_place(place, changed, mmu)
    }

    /// Whether a branch under `condition` is taken.
    fn taken(&self, condition: Option<FlagId>) -> (r: bool)
        ensures
            r == self.regs.taken(condition),
    {
        match condition {
            Some(id) => self.regs.flags.get(id),
            None => true,
        }
    }

    /// JP nn and JP cc,nn.
    fn jp(&mut self, condition: Option<FlagId>, mmu: &Mmu) -> (r: Result<(), Fault>)
        ensures
            performs(old(self).machine(mmu@).jp(condition), mmu@, r, final(self).regs, mmu@),
    {
        let addr = self.read_16(mmu)?;
        if self.taken(condition) {
            self.set_pc(addr);
        }
        Ok(())
    }

    /// Moves the program counter by the signed displacement `e`.
    fn jump_relative(&mut self, e: u8)
        ensures
            final(self).regs == old(self).regs.jump_relative(e),
    {
        self.advance_pc(extend_sign(e));
    }

    /// JR cc,e.
    fn jr_if(&mut self, id: FlagId, mmu: &Mmu) -> (r: Result<(), Fault>)
        ensures
            performs(old(self).machine(mmu@).jr_if(id), mmu@, r, final(self).regs, mmu@),
    {
        let offset = self.read_8(mmu)?;
        if self.regs.flags.get(id) {
            self.jump_relative(offset);
        }
        Ok(())
    }

    /// JR e. A jump onto itself ends the run.
    fn jr(&mut self, mmu: &Mmu) -> (r: Result<State, Fault>)
        ensures
            match old(self).machine(mmu@).jr() {
                Ok(step) => r == Ok::<State, Fault>(step.state) && final(self).regs
                    == step.machine.regs && step.machine.mem == mmu@,
                Err(fault) => r == Err::<State, Fault>(fault),
            },
    {
        let offset = self.read_8(mmu)?;
        if offset == 0xFE {
            // a jump onto itself: the program marks its end
            return Ok(State::Halted);
        }
        self.jump_relative(offset);
        Ok(State::Running)
    }

    /// Pushes the program counter and jumps to `addr`.
    fn call_to(&mut self, addr: u16, mmu: &mut Mmu) -> (r: Result<(), Fault>)
        ensures
            performs(
                old(self).machine(old(mmu)@).call_to(addr),
                old(mmu)@,
                r,
                final(self).regs,
                final(mmu)@,
            ),
    {
        let pc = self.regs.pc;
        self.push_stack(pc, mmu)?;
        self.set_pc(addr);
        Ok(())
    }

    /// CALL nn and CALL cc,nn.
    fn call(&mut self, condition: Option<FlagId>, mmu: &mut Mmu) -> (r: Result<(), Fault>)
        ensures
            performs(
                old(self).machine(old(mmu)@).call(condition),
                old(mmu)@,
                r,
                final(self).regs,
                final(mmu)@,
            ),
    {
        let addr = self.read_16(mmu)?;
        if self.taken(condition) {
            self.call_to(addr, mmu)
        } else {
            Ok(())
        }
    }

    /// RET, RETI and RET cc.
    fn ret(&mut self, condition: Option<FlagId>, mmu: &Mmu) -> (r: Result<(), Fault>)
        ensures
            performs(old(self).machine(mmu@).ret(condition), mmu@, r, final(self).regs, mmu@),
    {
        if self.taken(condition) {
            let addr = self.pop_stack(mmu)?;
            self.set_pc(addr);
        }
        Ok(())
    }

    /// INC where `up` holds, DEC where it does not.
    fn count(&mut self, op: Operand, up: bool, mmu: &mut Mmu) -> (r: Result<(), Fault>)
        ensures
            performs(
                old(self).machine(old(mmu)@).count(op, up),
                old(mmu)@,
                r,
                final(self).regs,
                final(mmu)@,
            ),
    {
        match op {
            Operand::Register16(pair) => {
                let n = self.regs.get(pair);
                self.regs.set(
                    pair,
                    if up {
                        n.wrapping_add(1)
                    } else {
                        n.wrapping_sub(1)
                    },
                );
                Ok(())
            },
            _ => {
                let place = self.locate(op, mmu)?;
                let n = self.load_place(place, mmu)?;
                let out = if up {
                    inc8(n, self.regs.flags)
                } else {
                    dec8(n, self.regs.flags)
                };
                self.store_place(place, out.value, mmu)?;
                self.regs.flags = out.flags;
                Ok(())
            },
        }
    }

    /// LD destination, source.
    fn ld(&mut self, destination: Operand, source: Operand, mmu: &mut Mmu) -> (r: Result<
        (),
        Fault,
    >)
        ensures
            performs(
                old(self).machine(old(mmu)@).ld(destination, source),
                old(mmu)@,
                r,
                final(self).regs,
                final(mmu)@,
            ),
    {
        match destination {
            Operand::Register16(pair) => {
                let val = self.get_operand_16(source, mmu)?;
                self.regs.set(pair, val);
                Ok(())
            },
            _ => {
                let place = self.locate(destination, mmu)?;
                let val = self.get_operand(source, mmu)?;
                self.store_place(place, val, mmu)
            },
        }
    }

    /// LD (nn),SP.
    fn ld_addr_sp(&mut self, mmu: &mut Mmu) -> (r: Result<(), Fault>)
        ensures
            performs(
                old(self).machine(old(mmu)@).ld_addr_sp(),
                old(mmu)@,
                r,
                final(self).regs,
                final(mmu)@,
            ),
    {
        let addr = self.read_16(mmu)?;
        self.store_16(addr, self.regs.sp, mmu)
    }

    /// LD A,(HL+) and LD A,(HL-).
    fn ld_a_hl(&mut self, delta: u16, mmu: &Mmu) -> (r: Result<(), Fault>)
        ensures
            performs(old(self).machine(mmu@).ld_a_hl(delta), mmu@, r, final(self).regs, mmu@),
    {
        let hl = self.regs.get(Register16Id::HL);
        self.regs.a = mmu.get(hl)?;
        self.regs.set(Register16Id::HL, hl.wrapping_add(delta));
        Ok(())
    }

    /// LD (HL+),A and LD (HL-),A.
    fn ld_hl_a(&mut self, delta: u16, mmu: &mut Mmu) -> (r: Result<(), Fault>)
        ensures
            performs(
                old(self).machine(old(mmu)@).ld_hl_a(delta),
                old(mmu)@,
                r,
                final(self).regs,
                final(mmu)@,
            ),
    {
        let hl = self.regs.get(Register16Id::HL);
        mmu.set(hl, self.regs.a)?;
        self.regs.set(Register16Id::HL, hl.wrapping_add(delta));
        Ok(())
    }

    /// POP rr.
    fn pop(&mut self, pair: Register16Id, mmu: &Mmu) -> (r: Result<(), Fault>)
        ensures
            performs(old(self).machine(mmu@).pop(pair), mmu@, r, final(self).regs, mmu@),
    {
        let val = self.pop_stack(mmu)?;
        self.regs.set(pair, val);
        Ok(())
    }

    /// RLCA, RRCA, RLA, RRA.
    fn rotate_a(&mut self, kind: Shift)
        ensures
            final(self).regs == old(self).regs.rotate_a(kind),
    {
        let out = accumulator_shift(kind, self.regs.a, self.regs.flags.c);
        self.regs.a = out.value;
        self.regs.flags = out.flags;
    }

    /// RLC, RRC, RL, RR, SLA, SRA, SRL, SWAP.
    fn shift(&mut self, kind: Shift, op: Operand, mmu: &mut Mmu) -> (r: Result<(), Fault>)
        ensures
            performs(
                old(self).machine(old(mmu)@).shift(kind, op),
                old(mmu)@,
                r,
                final(self).regs,
                final(mmu)@,
            ),
    {
        let place = self.locate(op, mmu)?;
        let n = self.load_place(place, mmu)?;
        let out = shift8(kind, n, self.regs.flags.c);
        self.store_place(place, out.value, mmu)?;
        self.regs.flags = out.flags;
        Ok(())
    }

    /// Carries out an instruction that does not end the run. On a fault the
    /// memory is as it was; the registers may have moved.
    fn perform(&mut self, command: Command, mmu: &mut Mmu) -> (r: Result<(), Fault>)
        ensures
            performs(
                old(self).machine(old(mmu)@).effect(command),
                old(mmu)@,
                r,
                final(self).regs,
                final(mmu)@,
            ),
    {
        match command {
            Command::Alu(kind, op) => self.alu(kind, op, mmu),
            Command::AddHl(pair) => {
                self.add_hl(pair);
                Ok(())
            },
            Command::AddSp => self.add_sp_into(Register16Id::SP, mmu),
            Command::Bit(bit, reg) => self.bit(bit, reg, mmu),
            Command::Call => self.call(None, mmu),
            Command::CallIf(id) => self.call(Some(id), mmu),
            Command::Ccf => {
                self.regs.flags = ccf(self.regs.flags);
                Ok(())
            },
            Command::Cpl => {
                let out = cpl(self.regs.a, self.regs.flags);
                self.regs.a = out.value;
                self.regs.flags = out.flags;
                Ok(())
            },
            Command::Daa => {
                let out = daa(self.regs.a, self.regs.flags);
                self.regs.a = out.value;
                self.regs.flags = out.flags;
                Ok(())
            },
            Command::Dec(op) => self.count(op, false, mmu),
            Command::Di => Ok(()),
            Command::Ei => Ok(()),
            Command::Inc(op) => self.count(op, true, mmu),
            Command::Jp => self.jp(None, mmu),
            Command::JpIf(id) => self.jp(Some(id), mmu),
            Command::JpHl => {
                let hl = self.regs.get(Register16Id::HL);
                self.set_pc(hl);
                Ok(())
            },
            Command::Jr => match self.jr(mmu) {
                Ok(_) => Ok(()),
                Err(fault) => Err(fault),
            },
            Command::JrIf(id) => self.jr_if(id, mmu),
            Command::Ld(destination, source) => self.ld(destination, source, mmu),
            Command::LdAddrSp => self.ld_addr_sp(mmu),
            Command::LddAHl => self.ld_a_hl(0xFFFF, mmu),
            Command::LddHlA => self.ld_hl_a(0xFFFF, mmu),
            Command::LdiAHl => self.ld_a_hl(1, mmu),
            Command::LdiHlA => self.ld_hl_a(1, mmu),
            Command::LdHlSp => self.add_sp_into(Register16Id::HL, mmu),
            Command::Nop => Ok(()),
            Command::Pop(pair) => self.pop(pair, mmu),
            Command::Push(pair) => {
                let val = self.regs.get(pair);
                self.push_stack(val, mmu)
            },
            Command::ResBit(bit, reg) => self.change_bit(bit, reg, false, mmu),
            Command::Ret => self.ret(None, mmu),
            Command::Reti => self.ret(None, mmu),
            Command::RetIf(id) => self.ret(Some(id), mmu),
            Command::RotateA(kind) => {
                self.rotate_a(kind);
                Ok(())
            },
            Command::Rst(target) => self.call_to(target as u16, mmu),
            Command::Scf => {
                self.regs.flags = scf(self.regs.flags);
                Ok(())
            },
            Command::SetBit(bit, reg) => self.change_bit(bit, reg, true, mmu),
            Command::Shift(kind, op) => self.shift(kind, op, mmu),
            Command::Stop => Ok(()),
        }
    }

    /// Executes `command`, the program counter being already past its
    /// opcode, and says whether the run goes on. An instruction that
    /// faults leaves the registers and the memory as they were.
    pub fn execute(&mut self, command: Command, mmu: &mut Mmu) -> (r: Result<State, Fault>)
        ensures
            match old(self).machine(old(mmu)@).execute(command) {
                Ok(step) => r == Ok::<State, Fault>(step.state) && final(self).machine(
                    final(mmu)@,
                ) == step.machine,
                Err(fault) => r == Err::<State, Fault>(fault) && final(self).regs == old(
                    self,
                ).regs && final(mmu)@ == old(mmu)@,
            },
    {
        let saved = self.regs;
        let result = match command {
            Command::Stop => Ok(State::Halted),
            Command::Jr => self.jr(mmu),
            _ => match self.perform(command, mmu) {
                Ok(()) => Ok(State::Running),
                Err(fault) => Err(fault),
            },
        };
        if result.is_err() {
            self.regs = saved;
        }
        result
    }

    /// Reads and decodes the instruction at the program counter.
    fn fetch(&self, mmu: &Mmu) -> (r: Result<(Command, u16), Fault>)
        ensures
            r == self.machine(mmu@).fetch(),
    {
        let pc = self.regs.pc;
        let opcode = mmu.get(pc)?;
        if opcode == 0xCB {
            let following = mmu.get(pc.wrapping_add(1))?;
            match decode(opcode, following) {
                Ok(command) => Ok((command, 2)),
                Err(error) => Err(Fault::Decode { pc, error }),
            }
        } else {
            match decode(opcode, 0) {
                Ok(command) => Ok((command, 1)),
                Err(error) => Err(Fault::Decode { pc, error }),
            }
        }
    }

    /// One cycle of the engine: fetches and decodes the instruction at the
    /// program counter, moves the program counter past its opcode, and
    /// executes it. On a fault the registers and the memory are as they
    /// were, so the program counter is at the instruction that faulted.
    pub fn step(&mut self, mmu: &mut Mmu) -> (r: Result<State, Fault>)
        ensures
            match old(self).machine(old(mmu)@).step() {
                Ok(step) => r == Ok::<State, Fault>(step.state) && final(self).machine(
                    final(mmu)@,
                ) == step.machine,
                Err(fault) => r == Err::<State, Fault>(fault) && final(self).regs == old(
                    self,
                ).regs && final(mmu)@ == old(mmu)@,
            },
    {
        proof {
            reveal(Machine::step);
        }
        let pc = self.regs.pc;
        let (command, width) = self.fetch(mmu)?;
        self.advance_pc(width);
        match self.execute(command, mmu) {
            Ok(state) => Ok(state),
            Err(fault) => {
                self.set_pc(pc);
                Err(fault)
            },
        }
    }

    /// Runs the program until it halts or faults, for at most `budget`
    /// cycles. `Ok(State::Running)` says that the budget ran out first.
    pub fn run(&mut self, mmu: &mut Mmu, budget: u64) -> (r: Result<State, Fault>)
        ensures
            (final(self).machine(final(mmu)@), r) == old(self).machine(old(mmu)@).run(
                budget as nat,
            ),
    {
        let ghost start = self.machine(mmu@);
        let mut remaining = budget;
        while remaining > 0
            invariant
                start == old(self).machine(old(mmu)@),
                self.machine(mmu@).run(remaining as nat) == start.run(budget as nat),
            decreases remaining,
        {
            match self.step(mmu) {
                Ok(State::Halted) => {
                    return Ok(State::Halted);
                },
                Ok(State::Running) => {},
                Err(fault) => {
                    return Err(fault);
                },
            }
            remaining -= 1;
        }
        Ok(State::Running)
    }
}

} // verus!
