//! Instruction descriptors and the opcode decoder.

use vstd::prelude::*;
use crate::alu::{AluOp, Shift};
use crate::fault::DecodeError;

verus! {

/// The slots of the instruction set's 8-bit register field.
///
/// `HL` is not a register cell: the instruction set uses that slot for the
/// byte in memory at the address held in the pair HL.
#[derive(Clone, Copy, Debug, PartialEq, Eq, Structural)]
pub enum RegisterId {
    A,
    B,
    C,
    D,
    E,
    H,
    L,
    HL,
}

/// The 16-bit registers and register pairs.
#[derive(Clone, Copy, Debug, PartialEq, Eq, Structural)]
pub enum Register16Id {
    AF,
    BC,
    DE,
    HL,
    SP,
}

/// The conditions that a control-flow instruction can test.
#[derive(Clone, Copy, Debug, PartialEq, Eq, Structural)]
pub enum FlagId {
    Z,
    NZ,
    C,
    NC,
}

/// How an instruction locates a source or a destination.
///
/// The displacement of the SP-relative instructions and the condition of a
/// branch are part of the instruction kinds that use them, so neither can
/// ever be handed to an instruction as a value or as a place to write.
#[derive(Clone, Copy, Debug, PartialEq, Eq, Structural)]
pub enum Operand {
    /// An 8-bit register, or the byte at the address in HL for
    /// `RegisterId::HL`.
    Register(RegisterId),
    /// The 16-bit value of a register pair.
    Register16(Register16Id),
    /// The byte at the address held in a register pair.
    IndirectAddress(Register16Id),
    /// The byte at a 16-bit address read from the instruction stream.
    DirectAddress,
    /// A value read from the instruction stream: one byte as an 8-bit
    /// operand, a little-endian word as a 16-bit operand.
    Byte,
    /// The byte at `0xFF00` plus the value of a register.
    IoPort(RegisterId),
    /// The byte at `0xFF00` plus a byte read from the instruction stream.
    IoPortOffset,
}

/// An instruction: its kind, with the operands that the kind takes.
#[derive(Clone, Copy, Debug, PartialEq, Eq, Structural)]
pub enum Command {
    /// ADD, ADC, SUB, SBC, AND, XOR, OR, CP: an operation between the
    /// accumulator and an 8-bit operand.
    Alu(AluOp, Operand),
    /// ADD HL,rr.
    AddHl(Register16Id),
    /// ADD SP,e: adds a signed displacement from the instruction stream.
    AddSp,
    /// BIT b,r: tests a bit.
    Bit(u8, RegisterId),
    /// CALL nn.
    Call,
    /// CALL cc,nn.
    CallIf(FlagId),
    /// CCF.
    Ccf,
    /// CPL.
    Cpl,
    /// DAA.
    Daa,
    /// DEC of a byte or of a 16-bit register.
    Dec(Operand),
    /// DI. Interrupts are not modelled: it does nothing.
    Di,
    /// EI. Interrupts are not modelled: it does nothing.
    Ei,
    /// INC of a byte or of a 16-bit register.
    Inc(Operand),
    /// JP nn.
    Jp,
    /// JP cc,nn.
    JpIf(FlagId),
    /// JP HL.
    JpHl,
    /// JR e.
    Jr,
    /// JR cc,e.
    JrIf(FlagId),
    /// LD destination, source.
    Ld(Operand, Operand),
    /// LD (nn),SP.
    LdAddrSp,
    /// LD A,(HL-).
    LddAHl,
    /// LD (HL-),A.
    LddHlA,
    /// LD A,(HL+).
    LdiAHl,
    /// LD (HL+),A.
    LdiHlA,
    /// LD HL,SP+e.
    LdHlSp,
    /// NOP.
    Nop,
    /// POP rr.
    Pop(Register16Id),
    /// PUSH rr.
    Push(Register16Id),
    /// RES b,r: clears a bit.
    ResBit(u8, RegisterId),
    /// RET.
    Ret,
    /// RETI. Interrupts are not modelled: it returns as RET does.
    Reti,
    /// RET cc.
    RetIf(FlagId),
    /// RLCA, RRCA, RLA, RRA: a rotate of the accumulator that clears Z.
    RotateA(Shift),
    /// RST n: a call to a fixed address.
    Rst(u8),
    /// SCF.
    Scf,
    /// SET b,r: sets a bit.
    SetBit(u8, RegisterId),
    /// RLC, RRC, RL, RR, SLA, SRA, SRL, SWAP.
    Shift(Shift, Operand),
    /// STOP: ends the run.
    Stop,
}

/// The 8-bit register slot selected by a three-bit field of an opcode.
pub open spec fn register_slot(field: u8) -> RegisterId
    recommends
        field < 8,
{
    match field {
        0 => RegisterId::B,
        1 => RegisterId::C,
        2 => RegisterId::D,
        3 => RegisterId::E,
        4 => RegisterId::H,
        5 => RegisterId::L,
        6 => RegisterId::HL,
        _ => RegisterId::A,
    }
}

/// The 8-bit operand selected by a three-bit field of an opcode: a
/// register, or the byte at the address in HL for the field 6.
pub open spec fn operand_slot(field: u8) -> Operand
    recommends
        field < 8,
{
    if field == 6 {
        Operand::IndirectAddress(Register16Id::HL)
    } else {
        Operand::Register(register_slot(field))
    }
}

/// The register pair selected by a two-bit field of an opcode.
pub open spec fn pair_slot(field: u8) -> Register16Id
    recommends
        field < 4,
{
    match field {
        0 => Register16Id::BC,
        1 => Register16Id::DE,
        2 => Register16Id::HL,
        _ => Register16Id::SP,
    }
}

/// The register pair selected by the two-bit field of PUSH and POP.
pub open spec fn stack_pair_slot(field: u8) -> Register16Id
    recommends
        field < 4,
{
    match field {
        0 => Register16Id::BC,
        1 => Register16Id::DE,
        2 => Register16Id::HL,
        _ => Register16Id::AF,
    }
}

/// The condition selected by a two-bit field of an opcode.
pub open spec fn condition_slot(field: u8) -> FlagId
    recommends
        field < 4,
{
    match field {
        0 => FlagId::NZ,
        1 => FlagId::Z,
        2 => FlagId::NC,
        _ => FlagId::C,
    }
}

/// The accumulator operation selected by a three-bit field of an opcode.
pub open spec fn alu_slot(field: u8) -> AluOp
    recommends
        field < 8,
{
    match field {
        0 => AluOp::Add,
        1 => AluOp::Adc,
        2 => AluOp::Sub,
        3 => AluOp::Sbc,
        4 => AluOp::And,
        5 => AluOp::Xor,
        6 => AluOp::Or,
        _ => AluOp::Cp,
    }
}

/// The rotate or shift selected by a three-bit field of an extended
/// opcode.
pub open spec fn shift_slot(field: u8) -> Shift
    recommends
        field < 8,
{
    match field {
        0 => Shift::Rlc,
        1 => Shift::Rrc,
        2 => Shift::Rl,
        3 => Shift::Rr,
        4 => Shift::Sla,
        5 => Shift::Sra,
        6 => Shift::Swap,
        _ => Shift::Srl,
    }
}

/// The instruction of an opcode of the first quarter of the opcode page
/// (`0x00..=0x3F`), by the fields `y` (bits 5 to 3) and `z` (bits 2 to 0).
pub open spec fn decode_quarter0(y: u8, z: u8) -> Command
    recommends
        y < 8,
        z < 8,
{
    let p = y / 2;
    let high = y % 2 == 1;
    match z {
        0 => match y {
            0 => Command::Nop,
            1 => Command::LdAddrSp,
            2 => Command::Stop,
            3 => Command::Jr,
            _ => Command::JrIf(condition_slot((y - 4) as u8)),
        },
        1 => if high {
            Command::AddHl(pair_slot(p))
        } else {
            Command::Ld(Operand::Register16(pair_slot(p)), Operand::Byte)
        },
        2 => match y {
            0 => Command::Ld(
                Operand::IndirectAddress(Register16Id::BC),
                Operand::Register(RegisterId::A),
            ),
            1 => Command::Ld(
                Operand::Register(RegisterId::A),
                Operand::IndirectAddress(Register16Id::BC),
            ),
            2 => Command::Ld(
                Operand::IndirectAddress(Register16Id::DE),
                Operand::Register(RegisterId::A),
            ),
            3 => Command::Ld(
                Operand::Register(RegisterId::A),
                Operand::IndirectAddress(Register16Id::DE),
            ),
            4 => Command::LdiHlA,
            5 => Command::LdiAHl,
            6 => Command::LddHlA,
            _ => Command::LddAHl,
        },
        3 => if high {
            Command::Dec(Operand::Register16(pair_slot(p)))
        } else {
            Command::Inc(Operand::Register16(pair_slot(p)))
        },
        4 => Command::Inc(operand_slot(y)),
        5 => Command::Dec(operand_slot(y)),
        6 => Command::Ld(operand_slot(y), Operand::Byte),
        _ => match y {
            0 => Command::RotateA(Shift::Rlc),
            1 => Command::RotateA(Shift::Rrc),
            2 => Command::RotateA(Shift::Rl),
            3 => Command::RotateA(Shift::Rr),
            4 => Command::Daa,
            5 => Command::Cpl,
            6 => Command::Scf,
            _ => Command::Ccf,
        },
    }
}

/// The instruction of an opcode of the last quarter of the opcode page
/// (`0xC0..=0xFF`), by the fields `y` and `z`, where there is one.
pub open spec fn decode_quarter3(y: u8, z: u8) -> Option<Command>
    recommends
        y < 8,
        z < 8,
{
    let p = y / 2;
    let high = y % 2 == 1;
    match z {
        0 => match y {
            4 => Some(Command::Ld(Operand::IoPortOffset, Operand::Register(RegisterId::A))),
            5 => Some(Command::AddSp),
            6 => Some(Command::Ld(Operand::Register(RegisterId::A), Operand::IoPortOffset)),
            7 => Some(Command::LdHlSp),
            _ => Some(Command::RetIf(condition_slot(y))),
        },
        1 => if high {
            match p {
                0 => Some(Command::Ret),
                1 => Some(Command::Reti),
                2 => Some(Command::JpHl),
                _ => Some(
                    Command::Ld(
                        Operand::Register16(Register16Id::SP),
                        Operand::Register16(Register16Id::HL),
                    ),
                ),
            }
        } else {
            Some(Command::Pop(stack_pair_slot(p)))
        },
        2 => match y {
            4 => Some(
                Command::Ld(Operand::IoPort(RegisterId::C), Operand::Register(RegisterId::A)),
            ),
            5 => Some(Command::Ld(Operand::DirectAddress, Operand::Register(RegisterId::A))),
            6 => Some(
                Command::Ld(Operand::Register(RegisterId::A), Operand::IoPort(RegisterId::C)),
            ),
            7 => Some(Command::Ld(Operand::Register(RegisterId::A), Operand::DirectAddress)),
            _ => Some(Command::JpIf(condition_slot(y))),
        },
        3 => match y {
            0 => Some(Command::Jp),
            6 => Some(Command::Di),
            7 => Some(Command::Ei),
            _ => None,
        },
        4 => if y < 4 {
            Some(Command::CallIf(condition_slot(y)))
        } else {
            None
        },
        5 => if high {
            if p == 0 {
                Some(Command::Call)
            } else {
                None
            }
        } else {
            Some(Command::Push(stack_pair_slot(p)))
        },
        6 => Some(Command::Alu(alu_slot(y), Operand::Byte)),
        _ => Some(Command::Rst((y * 8) as u8)),
    }
}

/// The instruction that a plain opcode selects, where it selects one.
///
/// The opcode is read as three fields: `x` (bits 7 and 6), `y` (bits 5 to
/// 3) and `z` (bits 2 to 0). `0xCB` selects no instruction by itself: it
/// introduces an extended opcode.
pub open spec fn decode_plain(opcode: u8) -> Option<Command> {
    let x = opcode / 64;
    let y = (opcode / 8) % 8;
    let z = opcode % 8;
    if x == 0 {
        Some(decode_quarter0(y, z))
    } else if x == 1 {
        if y == 6 && z == 6 {
            None
        } else {
            Some(Command::Ld(operand_slot(y), operand_slot(z)))
        }
    } else if x == 2 {
        Some(Command::Alu(alu_slot(y), operand_slot(z)))
    } else {
        decode_quarter3(y, z)
    }
}

/// The instruction that the byte after the `0xCB` prefix selects.
pub open spec fn decode_extended(opcode: u8) -> Command {
    let x = opcode / 64;
    let y = (opcode / 8) % 8;
    let z = opcode % 8;
    if x == 0 {
        Command::Shift(shift_slot(y), operand_slot(z))
    } else if x == 1 {
        Command::Bit(y, register_slot(z))
    } else if x == 2 {
        Command::ResBit(y, register_slot(z))
    } else {
        Command::SetBit(y, register_slot(z))
    }
}

/// The opcodes that select no instruction. (`0xCB` is none of them: it
/// selects the extended page.)
pub open spec fn is_gap(opcode: u8) -> bool {
    ||| opcode == 0x76
    ||| opcode == 0xD3
    ||| opcode == 0xDB
    ||| opcode == 0xDD
    ||| opcode == 0xE3
    ||| opcode == 0xE4
    ||| opcode == 0xEB
    ||| opcode == 0xEC
    ||| opcode == 0xED
    ||| opcode == 0xF4
    ||| opcode == 0xFC
    ||| opcode == 0xFD
}

/// The instruction that the byte `opcode` selects, with `following` the
/// byte after it. `following` plays a part only after the prefix `0xCB`.
pub open spec fn decode_spec(opcode: u8, following: u8) -> Result<Command, DecodeError> {
    if opcode == 0xCB {
        Ok(decode_extended(following))
    } else {
        match decode_plain(opcode) {
            Some(command) => Ok(command),
            None => Err(DecodeError::Unknown(opcode)),
        }
    }
}

/// The fields of an opcode, by shifts and masks and by division.
proof fn lemma_fields(opcode: u8)
    by (bit_vector)
    ensures
        opcode >> 6u8 == opcode / 64,
        (opcode >> 3u8) & 7 == (opcode / 8) % 8,
        opcode & 7 == opcode % 8,
{
}

/// The register slot of a three-bit field.
fn register_of(field: u8) -> (r: RegisterId)
    ensures
        r == register_slot(field),
{
    match field {
        0 => RegisterId::B,
        1 => RegisterId::C,
        2 => RegisterId::D,
        3 => RegisterId::E,
        4 => RegisterId::H,
        5 => RegisterId::L,
        6 => RegisterId::HL,
        _ => RegisterId::A,
    }
}

/// The 8-bit operand of a three-bit field.
fn operand_of(field: u8) -> (r: Operand)
    ensures
        r == operand_slot(field),
{
    if field == 6 {
        Operand::IndirectAddress(Register16Id::HL)
    } else {
        Operand::Register(register_of(field))
    }
}

/// The register pair of a two-bit field: with AF in the last place for
/// PUSH and POP (`stack`), else with SP.
fn pair_of(field: u8, stack: bool) -> (r: Register16Id)
    ensures
        r == if stack {
            stack_pair_slot(field)
        } else {
            pair_slot(field)
        },
{
    match field {
        0 => Register16Id::BC,
        1 => Register16Id::DE,
        2 => Register16Id::HL,
        _ => if stack {
            Register16Id::AF
        } else {
            Register16Id::SP
        },
    }
}

/// The condition of a two-bit field.
fn condition_of(field: u8) -> (r: FlagId)
    ensures
        r == condition_slot(field),
{
    match field {
        0 => FlagId::NZ,
        1 => FlagId::Z,
        2 => FlagId::NC,
        _ => FlagId::C,
    }
}

/// The accumulator operation of a three-bit field.
fn alu_of(field: u8) -> (r: AluOp)
    ensures
        r == alu_slot(field),
{
    match field {
        0 => AluOp::Add,
        1 => AluOp::Adc,
        2 => AluOp::Sub,
        3 => AluOp::Sbc,
        4 => AluOp::And,
        5 => AluOp::Xor,
        6 => AluOp::Or,
        _ => AluOp::Cp,
    }
}

/// The rotate or shift of a three-bit field.
fn shift_of(field: u8) -> (r: Shift)
    ensures
        r == shift_slot(field),
{
    match field {
        0 => Shift::Rlc,
        1 => Shift::Rrc,
        2 => Shift::Rl,
        3 => Shift::Rr,
        4 => Shift::Sla,
        5 => Shift::Sra,
        6 => Shift::Swap,
        _ => Shift::Srl,
    }
}

/// Decodes an opcode of `0x00..=0x3F` from its fields.
fn decode_low(y: u8, z: u8) -> (r: Command)
    requires
        y < 8,
        z < 8,
    ensures
        r == decode_quarter0(y, z),
{
    let a = Operand::Register(RegisterId::A);
    match (z, y) {
        (0, 0) => Command::Nop,
        (0, 1) => Command::LdAddrSp,
        (0, 2) => Command::Stop,
        (0, 3) => Command::Jr,
        (0, _) => Command::JrIf(condition_of(y - 4)),
        (1, _) => if y % 2 == 1 {
            Command::AddHl(pair_of(y / 2, false))
        } else {
            Command::Ld(Operand::Register16(pair_of(y / 2, false)), Operand::Byte)
        },
        (2, 0) => Command::Ld(Operand::IndirectAddress(Register16Id::BC), a),
        (2, 1) => Command::Ld(a, Operand::IndirectAddress(Register16Id::BC)),
        (2, 2) => Command::Ld(Operand::IndirectAddress(Register16Id::DE), a),
        (2, 3) => Command::Ld(a, Operand::IndirectAddress(Register16Id::DE)),
        (2, 4) => Command::LdiHlA,
        (2, 5) => Command::LdiAHl,
        (2, 6) => Command::LddHlA,
        (2, _) => Command::LddAHl,
        (3, _) => if y % 2 == 1 {
            Command::Dec(Operand::Register16(pair_of(y / 2, false)))
        } else {
            Command::Inc(Operand::Register16(pair_of(y / 2, false)))
        },
        (4, _) => Command::Inc(operand_of(y)),
        (5, _) => Command::Dec(operand_of(y)),
        (6, _) => Command::Ld(operand_of(y), Operand::Byte),
        (_, 0) => Command::RotateA(Shift::Rlc),
        (_, 1) => Command::RotateA(Shift::Rrc),
        (_, 2) => Command::RotateA(Shift::Rl),
        (_, 3) => Command::RotateA(Shift::Rr),
        (_, 4) => Command::Daa,
        (_, 5) => Command::Cpl,
        (_, 6) => Command::Scf,
        (_, _) => Command::Ccf,
    }
}

/// Decodes an opcode of `0xC0..=0xFF` from its fields.
fn decode_high(y: u8, z: u8) -> (r: Option<Command>)
    requires
        y < 8,
        z < 8,
    ensures
        r == decode_quarter3(y, z),
{
    let a = Operand::Register(RegisterId::A);
    match (z, y) {
        (0, 4) => Some(Command::Ld(Operand::IoPortOffset, a)),
        (0, 5) => Some(Command::AddSp),
        (0, 6) => Some(Command::Ld(a, Operand::IoPortOffset)),
        (0, 7) => Some(Command::LdHlSp),
        (0, _) => Some(Command::RetIf(condition_of(y))),
        (1, 1) => Some(Command::Ret),
        (1, 3) => Some(Command::Reti),
        (1, 5) => Some(Command::JpHl),
        (1, 7) => Some(
            Command::Ld(
                Operand::Register16(Register16Id::SP),
                Operand::Register16(Register16Id::HL),
            ),
        ),
        (1, _) => Some(Command::Pop(pair_of(y / 2, true))),
        (2, 4) => Some(Command::Ld(Operand::IoPort(RegisterId::C), a)),
        (2, 5) => Some(Command::Ld(Operand::DirectAddress, a)),
        (2, 6) => Some(Command::Ld(a, Operand::IoPort(RegisterId::C))),
        (2, 7) => Some(Command::Ld(a, Operand::DirectAddress)),
        (2, _) => Some(Command::JpIf(condition_of(y))),
        (3, 0) => Some(Command::Jp),
        (3, 6) => Some(Command::Di),
        (3, 7) => Some(Command::Ei),
        (3, _) => None,
        (4, 0) | (4, 1) | (4, 2) | (4, 3) => Some(Command::CallIf(condition_of(y))),
        (4, _) => None,
        (5, 1) => Some(Command::Call),
        (5, 3) | (5, 5) | (5, 7) => None,
        (5, _) => Some(Command::Push(pair_of(y / 2, true))),
        (6, _) => Some(Command::Alu(alu_of(y), Operand::Byte)),
        (_, _) => Some(Command::Rst(y * 8)),
    }
}

/// Decodes the byte `opcode`, with `following` the byte after it in the
/// instruction stream. `following` is looked at only after the prefix
/// `0xCB`; every extended opcode selects an instruction.
pub fn decode(opcode: u8, following: u8) -> (r: Result<Command, DecodeError>)
    ensures
        r == decode_spec(opcode, following),
        r is Err <==> is_gap(opcode),
{
    proof {
        lemma_fields(opcode);
        lemma_fields(following);
    }
    if opcode == 0xCB {
        let y = (following >> 3) & 7;
        let z = following & 7;
        Ok(
            match following >> 6 {
                0 => Command::Shift(shift_of(y), operand_of(z)),
                1 => Command::Bit(y, register_of(z)),
                2 => Command::ResBit(y, register_of(z)),
                _ => Command::SetBit(y, register_of(z)),
            },
        )
    } else {
        let y = (opcode >> 3) & 7;
        let z = opcode & 7;
        let command = match opcode >> 6 {
            0 => Some(decode_low(y, z)),
            1 => if opcode == 0x76 {
                None
            } else {
                Some(Command::Ld(operand_of(y), operand_of(z)))
            },
            2 => Some(Command::Alu(alu_of(y), operand_of(z))),
            _ => decode_high(y, z),
        };
        match command {
            Some(command) => Ok(command),
            None => Err(DecodeError::Unknown(opcode)),
        }
    }
}

} // verus!
