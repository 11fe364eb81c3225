#![allow(non_snake_case)]

use ruboy::cartridge::Cartridge;
use ruboy::cpu::{Cpu, State};
use ruboy::cpu;
use ruboy::memory::Mmu;
use ruboy::opcodes::{RegisterId::{B, D}};


const BUDGET: u64 = 100_000;

fn build_cartridge(program: Vec<u8>) -> Cartridge {
    let mut content = vec![0; 0x8000];

    content[0x0100..0x0100 + program.len()].copy_from_slice(program.as_slice());

    Cartridge { content }
}

fn run(cpu: &mut Cpu, mmu: &mut Mmu) {
    assert_eq!(Ok(State::Halted), cpu.run(mmu, BUDGET));
}

#[test]
fn test_JP_nn() {
    let cartridge = build_cartridge(vec![
        0xC3, 0x00, 0x20, // JP $2000
        0x10, 0x00, // STOP
    ]);

    let mut cpu = cpu::init_cpu();
    let mut mmu = Mmu::new(cartridge);

    mmu.set(0x2000, 0x16).unwrap(); // LD D, $42
    mmu.set(0x2001, 0x42).unwrap();
    mmu.set(0x2002, 0x10).unwrap(); // STOP
    mmu.set(0x2003, 0x00).unwrap();

    run(&mut cpu, &mut mmu);

    assert_eq!(0x42, cpu.regs.read(D));
    assert_eq!(0x2003, cpu.regs.pc);
}

fn jp_case(opcode: u8, z: bool, c: bool, expected_d: u8, expected_pc: u16) {
    let cartridge = build_cartridge(vec![
        opcode, 0x00, 0x20, // JP cc,$2000
        0x10, 0x00, // STOP
    ]);

    let mut cpu = cpu::init_cpu();
    let mut mmu = Mmu::new(cartridge);

    mmu.set(0x2000, 0x16).unwrap(); // LD D, $42
    mmu.set(0x2001, 0x42).unwrap();
    mmu.set(0x2002, 0x10).unwrap(); // STOP
    mmu.set(0x2003, 0x00).unwrap();

    cpu.regs.flags.z = z;
    cpu.regs.flags.c = c;
    cpu.regs.write(D, 0x00);

    run(&mut cpu, &mut mmu);

    assert_eq!(expected_d, cpu.regs.read(D));
    assert_eq!(expected_pc, cpu.regs.pc);
}

#[test]
fn test_JP_NZ_nn_ok() {
    jp_case(0xC2, false, false, 0x42, 0x2003);
}

#[test]
fn test_JP_NZ_nn_ko() {
    jp_case(0xC2, true, false, 0x00, 0x0104);
}

#[test]
fn test_JP_Z_nn_ok() {
    jp_case(0xCA, true, false, 0x42, 0x2003);
}

#[test]
fn test_JP_Z_nn_ko() {
    jp_case(0xCA, false, false, 0x00, 0x0104);
}

#[test]
fn test_JP_NC_nn_ok() {
    jp_case(0xD2, false, false, 0x42, 0x2003);
}

#[test]
fn test_JP_NC_nn_ko() {
    jp_case(0xD2, false, true, 0x00, 0x0104);
}

#[test]
fn test_JP_C_nn_ok() {
    jp_case(0xDA, false, true, 0x42, 0x2003);
}

#[test]
fn test_JP_C_nn_ko() {
    jp_case(0xDA, false, false, 0x00, 0x0104);
}

#[test]
fn test_JP_HL() {
    let cartridge = build_cartridge(vec![
        0x21, 0x00, 0x20, // LD HL, $2000
        0xE9, // JP (HL)
        0x10, 0x00, // STOP
    ]);

    let mut cpu = cpu::init_cpu();
    let mut mmu = Mmu::new(cartridge);

    mmu.set(0x2000, 0x16).unwrap(); // LD D, $42
    mmu.set(0x2001, 0x42).unwrap();
    mmu.set(0x2002, 0x10).unwrap(); // STOP
    mmu.set(0x2003, 0x00).unwrap();

    run(&mut cpu, &mut mmu);

    assert_eq!(0x42, cpu.regs.read(D));
    assert_eq!(0x2003, cpu.regs.pc);
}

#[test]
fn test_JR() {
    let cartridge = build_cartridge(vec![
        0x18, 0x02, // JR $032
        0x06, 0x51, // LD B, $51
        0x16, 0x42, // LD D, $42
        0x10, 0x00, // STOP
    ]);

    let mut cpu = cpu::init_cpu();
    let mut mmu = Mmu::new(cartridge);

    cpu.regs.write(B, 0x00);
    cpu.regs.write(D, 0x00);

    run(&mut cpu, &mut mmu);

    assert_eq!(0x00, cpu.regs.read(B));
    assert_eq!(0x42, cpu.regs.read(D));
}

fn jr_case(opcode: u8, z: bool, c: bool, expected_b: u8, expected_d: u8) {
    let cartridge = build_cartridge(vec![
        opcode, 0x02, // JR cc, $032
        0x06, 0x51, // LD B, $51
        0x16, 0x42, // LD D, $42
        0x10, 0x00, // STOP
    ]);

    let mut cpu = cpu::init_cpu();
    let mut mmu = Mmu::new(cartridge);

    cpu.regs.flags.z = z;
    cpu.regs.flags.c = c;
    cpu.regs.write(B, 0x00);
    cpu.regs.write(D, 0x00);

    run(&mut cpu, &mut mmu);

    assert_eq!(expected_b, cpu.regs.read(B));
    assert_eq!(expected_d, cpu.regs.read(D));
}

#[test]
fn test_JR_NZ_nn_ok() {
    jr_case(0x20, false, false, 0x00, 0x42);
}

#[test]
fn test_JR_NZ_nn_ko() {
    jr_case(0x20, true, false, 0x51, 0x42);
}

#[test]
fn test_JR_Z_nn_ok() {
    jr_case(0x28, true, false, 0x00, 0x42);
}

#[test]
fn test_JR_Z_nn_ko() {
    jr_case(0x28, false, false, 0x51, 0x42);
}

#[test]
fn test_JR_NC_nn_ok() {
    jr_case(0x30, false, false, 0x00, 0x42);
}

#[test]
fn test_JR_NC_nn_ko() {
    jr_case(0x30, false, true, 0x51, 0x42);
}

#[test]
fn test_JR_C_nn_ok() {
    jr_case(0x38, false, true, 0x00, 0x42);
}

#[test]
fn test_JR_C_nn_ko() {
    jr_case(0x38, false, false, 0x51, 0x42);
}
