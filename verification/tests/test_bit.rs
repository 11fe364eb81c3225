#![allow(non_snake_case)]

use ruboy::cartridge::Cartridge;
use ruboy::cpu::{Cpu, State};
use ruboy::cpu;
use ruboy::memory::Mmu;


const BUDGET: u64 = 100_000;

fn build_cartridge(program: Vec<u8>) -> Cartridge {
    let mut content = vec![0; 0x8000];

    content[0x0100..0x0100 + program.len()].copy_from_slice(program.as_slice());

    Cartridge { content }
}

fn run(cpu: &mut Cpu, mmu: &mut Mmu) {
    assert_eq!(Ok(State::Halted), cpu.run(mmu, BUDGET));
}

fn bit_case(opcode: u8, expected_z: bool) {
    let cartridge = build_cartridge(vec![
        0x3E, 0xF0, // LD A, $F0
        0x06, 0xE1, // LD B, $E1
        0x0E, 0xD2, // LD C, $D2
        0x16, 0xC3, // LD D, $C3
        0x1E, 0xB4, // LD E, $B4
        0x26, 0xA5, // LD H, $A5
        0x2E, 0x96, // LD L, $96
        0xCB, opcode, // <op> x
        0x10, 0x00, // STOP
    ]);

    let mut cpu = cpu::init_cpu();
    let mut mmu = Mmu::new(cartridge);

    mmu.set(0xA596, 0b01010101).unwrap();

    run(&mut cpu, &mut mmu);

    assert_eq!(expected_z, cpu.regs.flags.z);
    assert_eq!(false, cpu.regs.flags.n);
    assert_eq!(true, cpu.regs.flags.h);
}

#[test]
fn test_BIT_0A() {
    bit_case(0x47, true);
}

#[test]
fn test_BIT_1A() {
    bit_case(0x4F, true);
}

#[test]
fn test_BIT_2A() {
    bit_case(0x57, true);
}

#[test]
fn test_BIT_3A() {
    bit_case(0x5F, true);
}

#[test]
fn test_BIT_4A() {
    bit_case(0x67, false);
}

#[test]
fn test_BIT_5A() {
    bit_case(0x6F, false);
}

#[test]
fn test_BIT_6A() {
    bit_case(0x77, false);
}

#[test]
fn test_BIT_7A() {
    bit_case(0x7F, false);
}

#[test]
fn test_BIT_0B() {
    bit_case(0x40, false);
}

#[test]
fn test_BIT_1B() {
    bit_case(0x48, true);
}

#[test]
fn test_BIT_2B() {
    bit_case(0x50, true);
}

#[test]
fn test_BIT_3B() {
    bit_case(0x58, true);
}

#[test]
fn test_BIT_4B() {
    bit_case(0x60, true);
}

#[test]
fn test_BIT_5B() {
    bit_case(0x68, false);
}

#[test]
fn test_BIT_6B() {
    bit_case(0x70, false);
}

#[test]
fn test_BIT_7B() {
    bit_case(0x78, false);
}

#[test]
fn test_BIT_0C() {
    bit_case(0x41, true);
}

#[test]
fn test_BIT_1C() {
    bit_case(0x49, false);
}

#[test]
fn test_BIT_2C() {
    bit_case(0x51, true);
}

#[test]
fn test_BIT_3C() {
    bit_case(0x59, true);
}

#[test]
fn test_BIT_4C() {
    bit_case(0x61, false);
}

#[test]
fn test_BIT_5C() {
    bit_case(0x69, true);
}

#[test]
fn test_BIT_6C() {
    bit_case(0x71, false);
}

#[test]
fn test_BIT_7C() {
    bit_case(0x79, false);
}

#[test]
fn test_BIT_0D() {
    bit_case(0x42, false);
}

#[test]
fn test_BIT_1D() {
    bit_case(0x4A, false);
}

#[test]
fn test_BIT_2D() {
    bit_case(0x52, true);
}

#[test]
fn test_BIT_3D() {
    bit_case(0x5A, true);
}

#[test]
fn test_BIT_4D() {
    bit_case(0x62, true);
}

#[test]
fn test_BIT_5D() {
    bit_case(0x6A, true);
}

#[test]
fn test_BIT_6D() {
    bit_case(0x72, false);
}

#[test]
fn test_BIT_7D() {
    bit_case(0x7A, false);
}

#[test]
fn test_BIT_0E() {
    bit_case(0x43, true);
}

#[test]
fn test_BIT_1E() {
    bit_case(0x4B, true);
}

#[test]
fn test_BIT_2E() {
    bit_case(0x53, false);
}

#[test]
fn test_BIT_3E() {
    bit_case(0x5B, true);
}

#[test]
fn test_BIT_4E() {
    bit_case(0x63, false);
}

#[test]
fn test_BIT_5E() {
    bit_case(0x6B, false);
}

#[test]
fn test_BIT_6E() {
    bit_case(0x73, true);
}

#[test]
fn test_BIT_7E() {
    bit_case(0x7B, false);
}

#[test]
fn test_BIT_0H() {
    bit_case(0x44, false);
}

#[test]
fn test_BIT_1H() {
    bit_case(0x4C, true);
}

#[test]
fn test_BIT_2H() {
    bit_case(0x54, false);
}

#[test]
fn test_BIT_3H() {
    bit_case(0x5C, true);
}

#[test]
fn test_BIT_4H() {
    bit_case(0x64, true);
}

#[test]
fn test_BIT_5H() {
    bit_case(0x6C, false);
}

#[test]
fn test_BIT_6H() {
    bit_case(0x74, true);
}

#[test]
fn test_BIT_7H() {
    bit_case(0x7C, false);
}

#[test]
fn test_BIT_0L() {
    bit_case(0x45, true);
}

#[test]
fn test_BIT_1L() {
    bit_case(0x4D, false);
}

#[test]
fn test_BIT_2L() {
    bit_case(0x55, false);
}

#[test]
fn test_BIT_3L() {
    bit_case(0x5D, true);
}

#[test]
fn test_BIT_4L() {
    bit_case(0x65, false);
}

#[test]
fn test_BIT_5L() {
    bit_case(0x6D, true);
}

#[test]
fn test_BIT_6L() {
    bit_case(0x75, true);
}

#[test]
fn test_BIT_7L() {
    bit_case(0x7D, false);
}

#[test]
fn test_BIT_0HL() {
    bit_case(0x46, false);
}

#[test]
fn test_BIT_1HL() {
    bit_case(0x4E, true);
}

#[test]
fn test_BIT_2HL() {
    bit_case(0x56, false);
}

#[test]
fn test_BIT_3HL() {
    bit_case(0x5E, true);
}

#[test]
fn test_BIT_4HL() {
    bit_case(0x66, false);
}

#[test]
fn test_BIT_5HL() {
    bit_case(0x6E, true);
}

#[test]
fn test_BIT_6HL() {
    bit_case(0x76, false);
}

#[test]
fn test_BIT_7HL() {
    bit_case(0x7E, true);
}
