#![allow(non_snake_case)]

use ruboy::cartridge::Cartridge;
use ruboy::cpu::{Cpu, State};
use ruboy::cpu;
use ruboy::memory::Mmu;
use ruboy::opcodes::Register16Id::AF;
use ruboy::opcodes::{Register16Id::{BC, DE, HL}};


const BUDGET: u64 = 100_000;

fn build_cartridge(program: Vec<u8>) -> Cartridge {
    let mut content = vec![0; 0x8000];

    content[0x0100..0x0100 + program.len()].copy_from_slice(program.as_slice());

    Cartridge { content }
}

fn run(cpu: &mut Cpu, mmu: &mut Mmu) {
    assert_eq!(Ok(State::Halted), cpu.run(mmu, BUDGET));
}

fn push_case(opcode: u8, expected: u16) {
    let cartridge = build_cartridge(vec![
        0x3E, 0x77, // LD A, $77
        0x01, 0x22, 0x11, // LD BC, $1122
        0x11, 0x44, 0x33, // LD DE, $3344
        0x21, 0x66, 0x55, // LD HL, $5566
        opcode, // PUSH xx
        0x10, 0x00, // STOP
    ]);

    let mut cpu = cpu::init_cpu();
    let mut mmu = Mmu::new(cartridge);

    run(&mut cpu, &mut mmu);

    let [lo, hi] = u16::to_be_bytes(expected);

    assert_eq!(lo, mmu.get(0xFFFD).unwrap());
    assert_eq!(hi, mmu.get(0xFFFC).unwrap());
    assert_eq!(0xFFFC, cpu.regs.sp);
}

#[test]
fn test_PUSH_AF() {
    push_case(0xF5, 0x7700);
}

#[test]
fn test_PUSH_BC() {
    push_case(0xC5, 0x1122);
}

#[test]
fn test_PUSH_DE() {
    push_case(0xD5, 0x3344);
}

#[test]
fn test_PUSH_HL() {
    push_case(0xE5, 0x5566);
}

fn pop_case(opcode: u8, register: ruboy::opcodes::Register16Id) {
    let cartridge = build_cartridge(vec![
        opcode, // POP xx
        0x10, 0x00, // STOP
    ]);

    let mut cpu = cpu::init_cpu();
    let mut mmu = Mmu::new(cartridge);

    mmu.set(0xFFFD, 0x22).unwrap();
    mmu.set(0xFFFC, 0xF0).unwrap();
    cpu.regs.sp = 0xFFFC;

    run(&mut cpu, &mut mmu);

    assert_eq!(0x22F0, cpu.regs.get(register));
    assert_eq!(0xFFFE, cpu.regs.sp);
}

#[test]
fn test_POP_AF() {
    pop_case(0xF1, AF);
}

#[test]
fn test_POP_BC() {
    pop_case(0xC1, BC);
}

#[test]
fn test_POP_DE() {
    pop_case(0xD1, DE);
}

#[test]
fn test_POP_HL() {
    pop_case(0xE1, HL);
}
