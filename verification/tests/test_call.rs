#![allow(non_snake_case)]

use ruboy::cartridge::Cartridge;
use ruboy::cpu::{Cpu, State};
use ruboy::cpu;
use ruboy::memory::Mmu;
use ruboy::opcodes::RegisterId::D;


const BUDGET: u64 = 100_000;

fn build_cartridge(program: Vec<u8>) -> Cartridge {
    let mut content = vec![0; 0x8000];

    content[0x0100..0x0100 + program.len()].copy_from_slice(program.as_slice());

    Cartridge { content }
}

fn run(cpu: &mut Cpu, mmu: &mut Mmu) {
    assert_eq!(Ok(State::Halted), cpu.run(mmu, BUDGET));
}

#[test]
fn test_CALL_nn() {
    let cartridge = build_cartridge(vec![
        0xCD, 0x00, 0x20, // CALL $2000
        0x18, 0xF2, // JR -2 (infinite loop)
    ]);

    let mut cpu = cpu::init_cpu();
    let mut mmu = Mmu::new(cartridge);

    mmu.set(0x2000, 0x16).unwrap(); // LD D, $42
    mmu.set(0x2001, 0x42).unwrap();
    mmu.set(0x2002, 0x10).unwrap(); // STOP
    mmu.set(0x2003, 0x00).unwrap();

    run(&mut cpu, &mut mmu);

    assert_eq!(0x42, cpu.regs.read(D));
    assert_eq!(0x2003, cpu.regs.pc);
    assert_eq!(0x03, mmu.get(0xFFFC).unwrap());
    assert_eq!(0x01, mmu.get(0xFFFD).unwrap());
}

fn call_case(opcode: u8, z: bool, c: bool, expected_d: u8) {
    let cartridge = build_cartridge(vec![
        opcode, 0x00, 0x20, // CALL $2000
        0x16, 0x69, // LD D, $69
        0x10, 0x00 // STOP
    ]);

    let mut cpu = cpu::init_cpu();
    let mut mmu = Mmu::new(cartridge);

    mmu.set(0x2000, 0x16).unwrap(); // LD D, $42
    mmu.set(0x2001, 0x42).unwrap();
    mmu.set(0x2002, 0x10).unwrap(); // STOP
    mmu.set(0x2003, 0x00).unwrap();

    cpu.regs.flags.z = z;
    cpu.regs.flags.c = c;
    cpu.regs.write(D, 0x00);

    run(&mut cpu, &mut mmu);

    assert_eq!(expected_d, cpu.regs.read(D));
}

#[test]
fn test_CALL_NZ_nn_ok() {
    call_case(0xC4, false, false, 0x42);
}

#[test]
fn test_CALL_NZ_nn_ko() {
    call_case(0xC4, true, false, 0x69);
}

#[test]
fn test_CALL_Z_nn_ok() {
    call_case(0xCC, true, false, 0x42);
}

#[test]
fn test_CALL_Z_nn_ko() {
    call_case(0xCC, false, false, 0x69);
}

#[test]
fn test_CALL_NC_nn_ok() {
    call_case(0xD4, false, false, 0x42);
}

#[test]
fn test_CALL_NC_nn_ko() {
    call_case(0xD4, false, true, 0x69);
}

#[test]
fn test_CALL_C_nn_ok() {
    call_case(0xDC, false, true, 0x42);
}

#[test]
fn test_CALL_C_nn_ko() {
    call_case(0xDC, false, false, 0x69);
}
