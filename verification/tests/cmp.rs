//! CMP across every addressing mode, exhaustively over all (A, M) byte
//! pairs: flags must match the comparison rule, and each instruction must
//! take exactly its documented number of cycles.

use mos6502::cpu::Cpu;
use mos6502::cpu::CycleResult;
use mos6502::dispatch::opcode_to_byte;
use mos6502::dispatch::OpCode;
use mos6502::memory::MemoryBus;

const ORIGIN: u16 = 0x0200;

fn program(mem: &mut MemoryBus, opcode: OpCode, args: &[u8]) {
    mem.poke(ORIGIN, opcode_to_byte(opcode));
    for (i, &a) in args.iter().enumerate() {
        mem.poke(ORIGIN + 1 + i as u16, a);
    }
}

fn run_instruction(cpu: &mut Cpu, mem: &mut MemoryBus, expected_cycles: usize) {
    let mut cycles: usize = 0;
    loop {
        let r = cpu.step_cycle(mem);
        cycles += 1;
        if matches!(r, CycleResult::Break) {
            break;
        }
        assert!(cycles < 16, "instruction did not complete");
    }
    assert_eq!(cycles, expected_cycles, "wrong cycle count");
    assert_eq!(cpu.current_cycle, 0, "cycle counter not reset");
}

fn fresh_cpu(a: u8) -> Cpu {
    let mut cpu = Cpu::new();
    cpu.program_counter = ORIGIN;
    cpu.accumulator = a;
    cpu
}

fn verify_cmp(cpu: &Cpu, a: u8, b: u8) {
    let z = a == b;
    let n = (a.wrapping_sub(b) as i8) < 0;
    let c = a >= b;
    assert_eq!(cpu.flags.carry, c, "CARRY flag set incorrectly, a = {a}, b = {b}");
    assert_eq!(cpu.flags.negative, n, "NEGATIVE flag set incorrectly, a = {a}, b = {b}");
    assert_eq!(cpu.flags.zero, z);
    assert_eq!(cpu.accumulator, a, "CMP must not change the accumulator");
}

#[test]
fn immediate() {
    let mut mem = MemoryBus::new();
    for a in 0..=255u8 {
        for b in 0..=255u8 {
            program(&mut mem, OpCode::CmpImmediate, &[b]);
            let mut cpu = fresh_cpu(a);
            run_instruction(&mut cpu, &mut mem, 2);
            verify_cmp(&cpu, a, b);
        }
    }
}

#[test]
fn zeropage() {
    let mut mem = MemoryBus::new();
    let addr: u8 = 0x25;
    for a in 0..=255u8 {
        for b in 0..=255u8 {
            program(&mut mem, OpCode::CmpZeroPage, &[addr]);
            mem.poke(addr as u16, b);
            let mut cpu = fresh_cpu(a);
            run_instruction(&mut cpu, &mut mem, 3);
            verify_cmp(&cpu, a, b);
        }
    }
}

#[test]
fn zeropage_x() {
    let mut mem = MemoryBus::new();
    let base_addr: u8 = 0x25;
    let offset: u8 = 0x20;
    for a in 0..=255u8 {
        for b in 0..=255u8 {
            program(&mut mem, OpCode::CmpZeroPageX, &[base_addr]);
            mem.poke(base_addr.wrapping_add(offset) as u16, b);
            let mut cpu = fresh_cpu(a);
            cpu.x_index = offset;
            run_instruction(&mut cpu, &mut mem, 4);
            verify_cmp(&cpu, a, b);
        }
    }
}

#[test]
fn zeropage_x_overflow() {
    let mut mem = MemoryBus::new();
    let base_addr: u8 = 0x85;
    let offset: u8 = 0xD0;
    for a in 0..=255u8 {
        for b in 0..=255u8 {
            program(&mut mem, OpCode::CmpZeroPageX, &[base_addr]);
            mem.poke(base_addr.wrapping_add(offset) as u16, b);
            let mut cpu = fresh_cpu(a);
            cpu.x_index = offset;
            run_instruction(&mut cpu, &mut mem, 4);
            verify_cmp(&cpu, a, b);
        }
    }
}

#[test]
fn absolute() {
    let mut mem = MemoryBus::new();
    let addr: u16 = 0x0425;
    for a in 0..=255u8 {
        for b in 0..=255u8 {
            program(&mut mem, OpCode::CmpAbsolute, &addr.to_le_bytes());
            mem.poke(addr, b);
            let mut cpu = fresh_cpu(a);
            run_instruction(&mut cpu, &mut mem, 4);
            verify_cmp(&cpu, a, b);
        }
    }
}

#[test]
fn absolute_x() {
    let mut mem = MemoryBus::new();
    let addr: u16 = 0x0425;
    let offset: u8 = 0x5A;
    for a in 0..=255u8 {
        for b in 0..=255u8 {
            program(&mut mem, OpCode::CmpAbsoluteX, &addr.to_le_bytes());
            mem.poke(addr.wrapping_add(offset as u16), b);
            let mut cpu = fresh_cpu(a);
            cpu.x_index = offset;
            run_instruction(&mut cpu, &mut mem, 4);
            verify_cmp(&cpu, a, b);
        }
    }
}

#[test]
fn absolute_y() {
    let mut mem = MemoryBus::new();
    let addr: u16 = 0x0425;
    let offset: u8 = 0x5A;
    for a in 0..=255u8 {
        for b in 0..=255u8 {
            program(&mut mem, OpCode::CmpAbsoluteY, &addr.to_le_bytes());
            mem.poke(addr.wrapping_add(offset as u16), b);
            let mut cpu = fresh_cpu(a);
            cpu.y_index = offset;
            run_instruction(&mut cpu, &mut mem, 4);
            verify_cmp(&cpu, a, b);
        }
    }
}

#[test]
fn absolute_x_overflow() {
    let mut mem = MemoryBus::new();
    let addr: u16 = 0x04A5;
    let offset: u8 = 0x6A;
    for a in 0..=255u8 {
        for b in 0..=255u8 {
            program(&mut mem, OpCode::CmpAbsoluteX, &addr.to_le_bytes());
            mem.poke(addr.wrapping_add(offset as u16), b);
            let mut cpu = fresh_cpu(a);
            cpu.x_index = offset;
            run_instruction(&mut cpu, &mut mem, 5);
            verify_cmp(&cpu, a, b);
        }
    }
}

#[test]
fn absolute_y_overflow() {
    let mut mem = MemoryBus::new();
    let addr: u16 = 0x04A5;
    let offset: u8 = 0x6A;
    for a in 0..=255u8 {
        for b in 0..=255u8 {
            program(&mut mem, OpCode::CmpAbsoluteY, &addr.to_le_bytes());
            mem.poke(addr.wrapping_add(offset as u16), b);
            let mut cpu = fresh_cpu(a);
            cpu.y_index = offset;
            run_instruction(&mut cpu, &mut mem, 5);
            verify_cmp(&cpu, a, b);
        }
    }
}

#[test]
fn indirect_x() {
    let mut mem = MemoryBus::new();
    let ptr_base: u8 = 0x3F;
    let offset: u8 = 0x5A;
    let final_ptr = ptr_base.wrapping_add(offset) as u16;
    let addr: u16 = 0x0458;
    for a in 0..=255u8 {
        for b in 0..=255u8 {
            program(&mut mem, OpCode::CmpIndirectX, &[ptr_base]);
            mem.poke(final_ptr, addr.to_le_bytes()[0]);
            mem.poke(final_ptr.wrapping_add(1), addr.to_le_bytes()[1]);
            mem.poke(addr, b);
            let mut cpu = fresh_cpu(a);
            cpu.x_index = offset;
            run_instruction(&mut cpu, &mut mem, 6);
            verify_cmp(&cpu, a, b);
        }
    }
}

#[test]
fn indirect_y() {
    let mut mem = MemoryBus::new();
    let ptr: u8 = 0x3F;
    let offset: u8 = 0x5A;
    let base_addr: u16 = 0x0458;
    let final_addr = base_addr.wrapping_add(offset as u16);
    for a in 0..=255u8 {
        for b in 0..=255u8 {
            program(&mut mem, OpCode::CmpIndirectY, &[ptr]);
            mem.poke(ptr as u16, base_addr.to_le_bytes()[0]);
            mem.poke(ptr.wrapping_add(1) as u16, base_addr.to_le_bytes()[1]);
            mem.poke(final_addr, b);
            let mut cpu = fresh_cpu(a);
            cpu.y_index = offset;
            run_instruction(&mut cpu, &mut mem, 5);
            verify_cmp(&cpu, a, b);
        }
    }
}

#[test]
fn indirect_x_overflow() {
    let mut mem = MemoryBus::new();
    let ptr_base: u8 = 0x3F;
    let offset: u8 = 0xFA;
    let final_ptr = ptr_base.wrapping_add(offset) as u16;
    let addr: u16 = 0x0458;
    for a in 0..=255u8 {
        for b in 0..=255u8 {
            program(&mut mem, OpCode::CmpIndirectX, &[ptr_base]);
            mem.poke(final_ptr, addr.to_le_bytes()[0]);
            mem.poke(final_ptr.wrapping_add(1), addr.to_le_bytes()[1]);
            mem.poke(addr, b);
            let mut cpu = fresh_cpu(a);
            cpu.x_index = offset;
            run_instruction(&mut cpu, &mut mem, 6);
            verify_cmp(&cpu, a, b);
        }
    }
}

#[test]
fn indirect_y_overflow() {
    let mut mem = MemoryBus::new();
    let ptr: u8 = 0x3F;
    let offset: u8 = 0xFA;
    let base_addr: u16 = 0x0458;
    let final_addr = base_addr.wrapping_add(offset as u16);
    for a in 0..=255u8 {
        for b in 0..=255u8 {
            program(&mut mem, OpCode::CmpIndirectY, &[ptr]);
            mem.poke(ptr as u16, base_addr.to_le_bytes()[0]);
            mem.poke(ptr.wrapping_add(1) as u16, base_addr.to_le_bytes()[1]);
            mem.poke(final_addr, b);
            let mut cpu = fresh_cpu(a);
            cpu.y_index = offset;
            run_instruction(&mut cpu, &mut mem, 6);
            verify_cmp(&cpu, a, b);
        }
    }
}

#[test]
fn indirect_x_page_split() {
    let mut mem = MemoryBus::new();
    let ptr_base: u8 = 0xFF;
    let offset: u8 = 0x0;
    let final_ptr = ptr_base.wrapping_add(offset);
    let addr: u16 = 0x0458;
    for a in 0..=255u8 {
        for b in 0..=255u8 {
            program(&mut mem, OpCode::CmpIndirectX, &[ptr_base]);
            mem.poke(final_ptr as u16, addr.to_le_bytes()[0]);
            mem.poke(final_ptr.wrapping_add(1) as u16, addr.to_le_bytes()[1]);
            mem.poke(addr, b);
            let mut cpu = fresh_cpu(a);
            cpu.x_index = offset;
            run_instruction(&mut cpu, &mut mem, 6);
            verify_cmp(&cpu, a, b);
        }
    }
}

#[test]
fn indirect_y_page_split() {
    let mut mem = MemoryBus::new();
    let ptr: u8 = 0xFF;
    let offset: u8 = 0x5A;
    let base_addr: u16 = 0x0458;
    let final_addr = base_addr.wrapping_add(offset as u16);
    for a in 0..=255u8 {
        for b in 0..=255u8 {
            program(&mut mem, OpCode::CmpIndirectY, &[ptr]);
            mem.poke(ptr as u16, base_addr.to_le_bytes()[0]);
            mem.poke(ptr.wrapping_add(1) as u16, base_addr.to_le_bytes()[1]);
            mem.poke(final_addr, b);
            let mut cpu = fresh_cpu(a);
            cpu.y_index = offset;
            run_instruction(&mut cpu, &mut mem, 5);
            verify_cmp(&cpu, a, b);
        }
    }
}
