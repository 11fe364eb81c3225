#![allow(non_snake_case)]

use ruboy::cartridge::Cartridge;
use ruboy::cpu::{Cpu, State};
use ruboy::cpu;
use ruboy::memory::Mmu;
use ruboy::opcodes::RegisterId::D;


const BUDGET: u64 = 100_000;

fn build_cartridge(program: Vec<u8>) -> Cartridge {
    let mut content = vec![0; 0x8000];

    content[0x0100..0x0100 + program.len()].copy_from_slice(program.as_slice());

    Cartridge { content }
}

fn run(cpu: &mut Cpu, mmu: &mut Mmu) {
    assert_eq!(Ok(State::Halted), cpu.run(mmu, BUDGET));
}

#[test]
fn test_RET() {
    let cartridge = build_cartridge(vec![
        0x21, 0x07, 0x01, // LD HL, $0107
        0xE5, // PUSH HL
        0xC9, // RET
        0x18, 0xF2, // JR -2 (infinite loop)
        0x16, 0x42, // // LD D, $42
        0x10, 0x00, // STOP
    ]);

    let mut cpu = cpu::init_cpu();
    let mut mmu = Mmu::new(cartridge);

    run(&mut cpu, &mut mmu);

    assert_eq!(0x42, cpu.regs.read(D));
}

#[test]
fn test_RETI() {
    let cartridge = build_cartridge(vec![
        0x21, 0x07, 0x01, // LD HL, $0107
        0xE5, // PUSH HL
        0xD9, // RETI
        0x18, 0xF2, // JR -2 (infinite loop)
        0x16, 0x42, // // LD D, $42
        0x10, 0x00, // STOP
    ]);

    let mut cpu = cpu::init_cpu();
    let mut mmu = Mmu::new(cartridge);

    run(&mut cpu, &mut mmu);

    assert_eq!(0x42, cpu.regs.read(D));
}

fn ret_case(opcode: u8, z: bool, c: bool, expected_d: u8) {
    let cartridge = build_cartridge(vec![
        0x21, 0x09, 0x01, // LD HL, $0109
        0xE5, // PUSH HL
        opcode, // RET cc
        0x16, 0x69, // LD D, $69
        0x10, 0x00, // STOP
        0x16, 0x42, // LD D, $42
        0x10, 0x00 // STOP
    ]);

    let mut cpu = cpu::init_cpu();
    let mut mmu = Mmu::new(cartridge);

    cpu.regs.flags.z = z;
    cpu.regs.flags.c = c;
    cpu.regs.write(D, 0x00);

    run(&mut cpu, &mut mmu);

    assert_eq!(expected_d, cpu.regs.read(D));
}

#[test]
fn test_RET_NZ_nn_ok() {
    ret_case(0xC0, false, false, 0x42);
}

#[test]
fn test_RET_NZ_nn_ko() {
    ret_case(0xC0, true, false, 0x69);
}

#[test]
fn test_RET_Z_nn_ok() {
    ret_case(0xC8, true, false, 0x42);
}

#[test]
fn test_RET_Z_nn_ko() {
    ret_case(0xC8, false, false, 0x69);
}

#[test]
fn test_RET_NC_nn_ok() {
    ret_case(0xD0, false, false, 0x42);
}

#[test]
fn test_RET_NC_nn_ko() {
    ret_case(0xD0, false, true, 0x69);
}

#[test]
fn test_RET_C_nn_ok() {
    ret_case(0xD8, false, true, 0x42);
}

#[test]
fn test_RET_C_nn_ko() {
    ret_case(0xD8, false, false, 0x69);
}
