//! Whole-instruction scenarios: arithmetic flags, page-cross penalties,
//! store cycle counts, zero-page pointer wrap-around, and the bus trace of
//! dummy reads.

use mos6502::cpu::Cpu;
use mos6502::cpu::CycleResult;
use mos6502::dispatch::opcode_from_byte;
use mos6502::dispatch::opcode_to_byte;
use mos6502::dispatch::OpCode;
use mos6502::memory::BusOp;
use mos6502::memory::MemoryBus;

const ORIGIN: u16 = 0x0200;

fn program(mem: &mut MemoryBus, bytes: &[u8]) {
    for (i, &b) in bytes.iter().enumerate() {
        mem.poke(ORIGIN + i as u16, b);
    }
}

fn run_instruction(cpu: &mut Cpu, mem: &mut MemoryBus, expected_cycles: usize) {
    let mut cycles: usize = 0;
    loop {
        let r = cpu.step_cycle(mem);
        cycles += 1;
        if matches!(r, CycleResult::Break) {
            break;
        }
        assert!(cycles < 16, "instruction did not complete");
    }
    assert_eq!(cycles, expected_cycles, "wrong cycle count");
    assert_eq!(cpu.current_cycle, 0, "cycle counter not reset");
}

fn fresh_cpu() -> Cpu {
    let mut cpu = Cpu::new();
    cpu.program_counter = ORIGIN;
    cpu
}

#[test]
fn cmp_immediate_equality() {
    let mut mem = MemoryBus::new();
    program(&mut mem, &[0xC9, 0x42]);
    let mut cpu = fresh_cpu();
    cpu.accumulator = 0x42;
    run_instruction(&mut cpu, &mut mem, 2);
    assert!(cpu.flags.zero);
    assert!(cpu.flags.carry);
    assert!(!cpu.flags.negative);
    assert_eq!(cpu.accumulator, 0x42);
}

#[test]
fn adc_with_signed_overflow() {
    let mut mem = MemoryBus::new();
    program(&mut mem, &[0x69, 0x01]);
    let mut cpu = fresh_cpu();
    cpu.accumulator = 0x7F;
    cpu.flags.carry = false;
    run_instruction(&mut cpu, &mut mem, 2);
    assert_eq!(cpu.accumulator, 0x80);
    assert!(cpu.flags.negative);
    assert!(!cpu.flags.zero);
    assert!(!cpu.flags.carry);
    assert!(cpu.flags.overflow);
}

#[test]
fn lda_absolute_x_page_cross() {
    let mut mem = MemoryBus::new();
    program(&mut mem, &[0xBD, 0xFF, 0x00]);
    mem.poke(0x01FF, 0xAB);
    mem.poke(0x00FF_u16.wrapping_add(0x01), 0xAB);
    let mut cpu = fresh_cpu();
    cpu.x_index = 0x01;
    run_instruction(&mut cpu, &mut mem, 5);
    assert_eq!(cpu.accumulator, 0xAB);
    assert!(cpu.flags.negative);
    assert!(!cpu.flags.zero);
}

#[test]
fn sta_absolute_x_without_page_cross_still_pays_five_cycles() {
    let mut mem = MemoryBus::new();
    mem.poke(0x0400, 0x9D);
    mem.poke(0x0401, 0x00);
    mem.poke(0x0402, 0x02);
    let mut cpu = fresh_cpu();
    cpu.program_counter = 0x0400;
    cpu.x_index = 0x01;
    cpu.accumulator = 0x55;
    run_instruction(&mut cpu, &mut mem, 5);
    assert_eq!(mem.peek(0x0201), 0x55);
}

#[test]
fn lda_indirect_x_with_pointer_wrap() {
    let mut mem = MemoryBus::new();
    program(&mut mem, &[0xA1, 0xFF]);
    mem.poke(0x00FF, 0x34);
    mem.poke(0x0000, 0x12);
    mem.poke(0x1234, 0x77);
    let mut cpu = fresh_cpu();
    cpu.x_index = 0x00;
    run_instruction(&mut cpu, &mut mem, 6);
    assert_eq!(cpu.accumulator, 0x77);
}

#[test]
fn bit_absolute() {
    let mut mem = MemoryBus::new();
    program(&mut mem, &[0x2C, 0x00, 0x10]);
    mem.poke(0x1000, 0xC0);
    let mut cpu = fresh_cpu();
    cpu.accumulator = 0x0F;
    run_instruction(&mut cpu, &mut mem, 4);
    assert!(cpu.flags.negative);
    assert!(cpu.flags.overflow);
    assert!(cpu.flags.zero);
    assert_eq!(cpu.accumulator, 0x0F);
}

#[test]
fn indirect_y_pointer_high_byte_wraps_to_zero() {
    let mut mem = MemoryBus::new();
    program(&mut mem, &[0xB1, 0xFF]);
    mem.poke(0x00FF, 0x20);
    mem.poke(0x0000, 0x13);
    mem.poke(0x1322, 0x99);
    let mut cpu = fresh_cpu();
    cpu.y_index = 0x02;
    run_instruction(&mut cpu, &mut mem, 5);
    assert_eq!(cpu.accumulator, 0x99);
}

#[test]
fn zeropage_x_dummy_read_appears_on_the_bus() {
    let mut mem = MemoryBus::new();
    program(&mut mem, &[0xB5, 0x80]);
    mem.poke(0x0090, 0x5C);
    let mut cpu = fresh_cpu();
    cpu.x_index = 0x10;
    let start = mem.trace_len();
    run_instruction(&mut cpu, &mut mem, 4);
    assert_eq!(mem.trace_len() - start, 4, "one bus transaction per cycle");
    assert_eq!(mem.trace_at(start), BusOp::Read(ORIGIN, 0xB5));
    assert_eq!(mem.trace_at(start + 1), BusOp::Read(ORIGIN + 1, 0x80));
    assert_eq!(mem.trace_at(start + 2), BusOp::Read(0x0080, 0x00));
    assert_eq!(mem.trace_at(start + 3), BusOp::Read(0x0090, 0x5C));
    assert_eq!(cpu.accumulator, 0x5C);
}

#[test]
fn zeropage_x_indexing_never_leaves_zero_page() {
    let mut mem = MemoryBus::new();
    program(&mut mem, &[0xB5, 0x85]);
    mem.poke(0x0055, 0x33);
    let mut cpu = fresh_cpu();
    cpu.x_index = 0xD0;
    let start = mem.trace_len();
    run_instruction(&mut cpu, &mut mem, 4);
    assert_eq!(mem.trace_at(start + 3), BusOp::Read(0x0055, 0x33));
    assert_eq!(cpu.accumulator, 0x33);
}

#[test]
fn sta_indirect_y_always_pays_six_cycles() {
    let mut mem = MemoryBus::new();
    program(&mut mem, &[0x91, 0x40]);
    mem.poke(0x0040, 0x00);
    mem.poke(0x0041, 0x05);
    let mut cpu = fresh_cpu();
    cpu.y_index = 0x02;
    cpu.accumulator = 0x7E;
    run_instruction(&mut cpu, &mut mem, 6);
    assert_eq!(mem.peek(0x0502), 0x7E);
}

#[test]
fn store_write_is_the_last_bus_transaction() {
    let mut mem = MemoryBus::new();
    program(&mut mem, &[0x85, 0x31]);
    let mut cpu = fresh_cpu();
    cpu.accumulator = 0xA7;
    let start = mem.trace_len();
    run_instruction(&mut cpu, &mut mem, 3);
    assert_eq!(mem.trace_len() - start, 3);
    assert_eq!(mem.trace_at(start + 2), BusOp::Write(0x0031, 0xA7));
    assert_eq!(mem.peek(0x0031), 0xA7);
}

#[test]
fn adc_chains_carry_in() {
    let mut mem = MemoryBus::new();
    program(&mut mem, &[0x69, 0xFF]);
    let mut cpu = fresh_cpu();
    cpu.accumulator = 0x01;
    cpu.flags.carry = true;
    run_instruction(&mut cpu, &mut mem, 2);
    assert_eq!(cpu.accumulator, 0x01);
    assert!(cpu.flags.carry);
    assert!(!cpu.flags.zero);
    assert!(!cpu.flags.overflow);
}

#[test]
fn sbc_borrows_when_subtrahend_larger() {
    let mut mem = MemoryBus::new();
    program(&mut mem, &[0xE9, 0x01]);
    let mut cpu = fresh_cpu();
    cpu.accumulator = 0x00;
    cpu.flags.carry = true;
    run_instruction(&mut cpu, &mut mem, 2);
    assert_eq!(cpu.accumulator, 0xFF);
    assert!(!cpu.flags.carry, "a borrow clears CARRY");
    assert!(cpu.flags.negative);
}

#[test]
fn eor_flips_accumulator_bits() {
    let mut mem = MemoryBus::new();
    program(&mut mem, &[0x49, 0xFF]);
    let mut cpu = fresh_cpu();
    cpu.accumulator = 0x0F;
    run_instruction(&mut cpu, &mut mem, 2);
    assert_eq!(cpu.accumulator, 0xF0);
    assert!(cpu.flags.negative);
    assert!(!cpu.flags.zero);
}

#[test]
fn and_then_ora_exact_values() {
    let mut mem = MemoryBus::new();
    program(&mut mem, &[0x29, 0x3C, 0x09, 0x81]);
    let mut cpu = fresh_cpu();
    cpu.accumulator = 0x0F;
    run_instruction(&mut cpu, &mut mem, 2);
    assert_eq!(cpu.accumulator, 0x0C);
    run_instruction(&mut cpu, &mut mem, 2);
    assert_eq!(cpu.accumulator, 0x8D);
    assert!(cpu.flags.negative);
}

#[test]
fn ldx_ldy_and_stores_round_trip() {
    let mut mem = MemoryBus::new();
    program(&mut mem, &[0xA2, 0x11, 0xA0, 0x22, 0x86, 0x40, 0x84, 0x41]);
    let mut cpu = fresh_cpu();
    run_instruction(&mut cpu, &mut mem, 2);
    assert_eq!(cpu.x_index, 0x11);
    run_instruction(&mut cpu, &mut mem, 2);
    assert_eq!(cpu.y_index, 0x22);
    run_instruction(&mut cpu, &mut mem, 3);
    run_instruction(&mut cpu, &mut mem, 3);
    assert_eq!(mem.peek(0x0040), 0x11);
    assert_eq!(mem.peek(0x0041), 0x22);
}

#[test]
fn transfers_update_nz_but_txs_does_not() {
    let mut mem = MemoryBus::new();
    program(&mut mem, &[0xAA, 0x9A, 0xBA]);
    let mut cpu = fresh_cpu();
    cpu.accumulator = 0x80;
    run_instruction(&mut cpu, &mut mem, 2);
    assert_eq!(cpu.x_index, 0x80);
    assert!(cpu.flags.negative);
    cpu.flags.negative = false;
    cpu.flags.zero = false;
    run_instruction(&mut cpu, &mut mem, 2);
    assert_eq!(cpu.stack_pointer, 0x80);
    assert!(!cpu.flags.negative, "TXS updates no flags");
    assert!(!cpu.flags.zero);
    run_instruction(&mut cpu, &mut mem, 2);
    assert_eq!(cpu.x_index, 0x80);
    assert!(cpu.flags.negative, "TSX updates N and Z");
}

#[test]
fn increments_and_decrements_wrap() {
    let mut mem = MemoryBus::new();
    program(&mut mem, &[0xE8, 0x88]);
    let mut cpu = fresh_cpu();
    cpu.x_index = 0xFF;
    cpu.y_index = 0x00;
    run_instruction(&mut cpu, &mut mem, 2);
    assert_eq!(cpu.x_index, 0x00);
    assert!(cpu.flags.zero);
    run_instruction(&mut cpu, &mut mem, 2);
    assert_eq!(cpu.y_index, 0xFF);
    assert!(cpu.flags.negative);
}

#[test]
fn flag_instructions_set_and_clear() {
    let mut mem = MemoryBus::new();
    program(&mut mem, &[0x38, 0xF8, 0x78, 0x18, 0xD8, 0x58, 0xB8]);
    let mut cpu = fresh_cpu();
    cpu.flags.overflow = true;
    run_instruction(&mut cpu, &mut mem, 2);
    assert!(cpu.flags.carry);
    run_instruction(&mut cpu, &mut mem, 2);
    assert!(cpu.flags.decimal);
    run_instruction(&mut cpu, &mut mem, 2);
    assert!(cpu.flags.interrupt_disable);
    run_instruction(&mut cpu, &mut mem, 2);
    assert!(!cpu.flags.carry);
    run_instruction(&mut cpu, &mut mem, 2);
    assert!(!cpu.flags.decimal);
    run_instruction(&mut cpu, &mut mem, 2);
    assert!(!cpu.flags.interrupt_disable);
    run_instruction(&mut cpu, &mut mem, 2);
    assert!(!cpu.flags.overflow);
}

#[test]
fn nop_changes_nothing_but_pc() {
    let mut mem = MemoryBus::new();
    program(&mut mem, &[0xEA]);
    let mut cpu = fresh_cpu();
    let before = cpu;
    run_instruction(&mut cpu, &mut mem, 2);
    assert_eq!(cpu.program_counter, ORIGIN + 1);
    assert_eq!(cpu.accumulator, before.accumulator);
    assert_eq!(cpu.flags, before.flags);
}

#[test]
fn pc_advances_by_instruction_length() {
    let mut mem = MemoryBus::new();
    program(&mut mem, &[0xA9, 0x01, 0xA5, 0x10, 0xAD, 0x00, 0x10, 0xEA]);
    let mut cpu = fresh_cpu();
    run_instruction(&mut cpu, &mut mem, 2);
    assert_eq!(cpu.program_counter, ORIGIN + 2);
    run_instruction(&mut cpu, &mut mem, 3);
    assert_eq!(cpu.program_counter, ORIGIN + 4);
    run_instruction(&mut cpu, &mut mem, 4);
    assert_eq!(cpu.program_counter, ORIGIN + 7);
    run_instruction(&mut cpu, &mut mem, 2);
    assert_eq!(cpu.program_counter, ORIGIN + 8);
}

#[test]
fn opcode_bytes_round_trip() {
    assert_eq!(opcode_from_byte(0x69), OpCode::AdcImmediate);
    assert_eq!(opcode_from_byte(0xA9), OpCode::LdaImmediate);
    assert_eq!(opcode_from_byte(0xEA), OpCode::Nop);
    assert_eq!(opcode_from_byte(0x02), OpCode::Unimplemented);
    assert_eq!(opcode_from_byte(0x00), OpCode::Unimplemented);
    for b in 0..=255u8 {
        let op = opcode_from_byte(b);
        if op != OpCode::Unimplemented {
            assert_eq!(opcode_to_byte(op), b);
        }
    }
}
