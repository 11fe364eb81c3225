#![allow(non_snake_case)]

use ruboy::cartridge::Cartridge;
use ruboy::cpu::{Cpu, State};
use ruboy::cpu;
use ruboy::memory::Mmu;
use ruboy::opcodes::RegisterId::{A, B, C, D, E, H, L};


const BUDGET: u64 = 100_000;

fn build_cartridge(program: Vec<u8>) -> Cartridge {
    let mut content = vec![0; 0x8000];

    content[0x0100..0x0100 + program.len()].copy_from_slice(program.as_slice());

    Cartridge { content }
}

fn run(cpu: &mut Cpu, mmu: &mut Mmu) {
    assert_eq!(Ok(State::Halted), cpu.run(mmu, BUDGET));
}

fn swap_case(opcode: u8, reg: ruboy::opcodes::RegisterId, expected: u8) {
    let cartridge = build_cartridge(vec![
        0x3E, 0xF0, // LD A, $F0
        0x06, 0xE1, // LD B, $E1
        0x0E, 0xD2, // LD C, $D2
        0x16, 0xC3, // LD D, $C3
        0x1E, 0xB4, // LD E, $B4
        0x26, 0xA5, // LD H, $A5
        0x2E, 0x96, // LD L, $96
        0xCB, opcode, // SWAP x
        0x10, 0x00, // STOP
    ]);

    let mut cpu = cpu::init_cpu();
    let mut mmu = Mmu::new(cartridge);

    run(&mut cpu, &mut mmu);

    assert_eq!(expected, cpu.regs.read(reg));
}

#[test]
fn test_SWAP_A() {
    swap_case(0x37, A, 0x0F);
}

#[test]
fn test_SWAP_B() {
    swap_case(0x30, B, 0x1E);
}

#[test]
fn test_SWAP_C() {
    swap_case(0x31, C, 0x2D);
}

#[test]
fn test_SWAP_D() {
    swap_case(0x32, D, 0x3C);
}

#[test]
fn test_SWAP_E() {
    swap_case(0x33, E, 0x4B);
}

#[test]
fn test_SWAP_H() {
    swap_case(0x34, H, 0x5A);
}

#[test]
fn test_SWAP_L() {
    swap_case(0x35, L, 0x69);
}

#[test]
fn test_SWAP_HL() {
    let cartridge = build_cartridge(vec![
        0x26, 0xA5, // LD H, $A5
        0x2E, 0x96, // LD L, $96
        0xCB, 0x36, // SWAP (HL)
        0x10, 0x00, // STOP
    ]);

    let mut cpu = cpu::init_cpu();
    let mut mmu = Mmu::new(cartridge);

    mmu.set(0xA596, 0x87).unwrap();

    run(&mut cpu, &mut mmu);

    assert_eq!(0x78, mmu.get(0xA596).unwrap());
}

#[test]
fn test_CPL() {
    let cartridge = build_cartridge(vec![
        0x3E, 0b10101100, // LD A, $AC
        0x2F, // CPL
        0x10, 0x00, // STOP
    ]);

    let mut cpu = cpu::init_cpu();
    let mut mmu = Mmu::new(cartridge);

    run(&mut cpu, &mut mmu);

    assert_eq!(0b01010011, cpu.regs.read(A));
}

#[test]
fn test_CCF_false() {
    let cartridge = build_cartridge(vec![
        0x3F, // CCF
        0x10, 0x00, // STOP
    ]);

    let mut cpu = cpu::init_cpu();
    let mut mmu = Mmu::new(cartridge);

    cpu.regs.flags.z = true;
    cpu.regs.flags.n = true;
    cpu.regs.flags.h = true;
    cpu.regs.flags.c = false;

    run(&mut cpu, &mut mmu);

    assert_eq!(true, cpu.regs.flags.z);
    assert_eq!(false, cpu.regs.flags.n);
    assert_eq!(false, cpu.regs.flags.h);
    assert_eq!(true, cpu.regs.flags.c);
}

#[test]
fn test_CCF_true() {
    let cartridge = build_cartridge(vec![
        0x3F, // CCF
        0x10, 0x00, // STOP
    ]);

    let mut cpu = cpu::init_cpu();
    let mut mmu = Mmu::new(cartridge);

    cpu.regs.flags.z = true;
    cpu.regs.flags.n = true;
    cpu.regs.flags.h = true;
    cpu.regs.flags.c = true;

    run(&mut cpu, &mut mmu);

    assert_eq!(true, cpu.regs.flags.z);
    assert_eq!(false, cpu.regs.flags.n);
    assert_eq!(false, cpu.regs.flags.h);
    assert_eq!(false, cpu.regs.flags.c);
}

#[test]
fn test_SCF() {
    let cartridge = build_cartridge(vec![
        0x37, // SCF
        0x10, 0x00, // STOP
    ]);

    let mut cpu = cpu::init_cpu();
    let mut mmu = Mmu::new(cartridge);

    cpu.regs.flags.z = true;
    cpu.regs.flags.n = true;
    cpu.regs.flags.h = true;
    cpu.regs.flags.c = false;

    run(&mut cpu, &mut mmu);

    assert_eq!(true, cpu.regs.flags.z);
    assert_eq!(false, cpu.regs.flags.n);
    assert_eq!(false, cpu.regs.flags.h);
    assert_eq!(true, cpu.regs.flags.c);
}

#[test]
fn test_NOP() {
    let cartridge = build_cartridge(vec![
        0x00, 0x00, 0x00, 0x00, 0x00, 0x00, 0x00,
        0x3E, 0xAA, // LD A, $AA
        0x10, 0x00, // STOP
    ]);

    let mut cpu = cpu::init_cpu();
    let mut mmu = Mmu::new(cartridge);

    run(&mut cpu, &mut mmu);

    assert_eq!(0xAA, cpu.regs.read(A));
}
