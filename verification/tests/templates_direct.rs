//! Driving the addressing-mode templates directly, cycle by cycle, as a
//! dispatcher would: the older `read_`-prefixed generation must behave like
//! the instruction it implements, with the page-cross bit held in the
//! internal flag set and the architectural status register left alone.

use mos6502::cpu::Cpu;
use mos6502::cpu::CycleResult;
use mos6502::instructions::IndexRegister;
use mos6502::instructions::ReadOp;
use mos6502::memory::MemoryBus;
use mos6502::templates::read_absolute;
use mos6502::templates::read_absolute_indexed;
use mos6502::templates::read_immediate;
use mos6502::templates::read_zeropage;
use mos6502::templates::read_zeropage_indexed;

const ORIGIN: u16 = 0x0200;

fn fresh(a: u8) -> Cpu {
    let mut cpu = Cpu::new();
    cpu.program_counter = ORIGIN;
    cpu.accumulator = a;
    cpu.current_cycle = 1;
    cpu
}

#[test]
fn read_immediate_loads_the_operand() {
    let mut mem = MemoryBus::new();
    mem.poke(ORIGIN, 0x5D);
    let mut cpu = fresh(0x00);
    let r = read_immediate(&mut cpu, &mut mem, ReadOp::Lda);
    assert!(matches!(r, CycleResult::Break));
    assert_eq!(cpu.accumulator, 0x5D);
    assert_eq!(cpu.program_counter, ORIGIN + 1);
}

#[test]
fn read_zeropage_takes_two_handler_cycles() {
    let mut mem = MemoryBus::new();
    mem.poke(ORIGIN, 0x42);
    mem.poke(0x0042, 0x99);
    let mut cpu = fresh(0x00);
    assert!(matches!(read_zeropage(&mut cpu, &mut mem, ReadOp::Lda), CycleResult::Continue));
    cpu.current_cycle = 2;
    assert!(matches!(read_zeropage(&mut cpu, &mut mem, ReadOp::Lda), CycleResult::Break));
    assert_eq!(cpu.accumulator, 0x99);
}

#[test]
fn read_zeropage_indexed_wraps_in_zero_page() {
    let mut mem = MemoryBus::new();
    mem.poke(ORIGIN, 0x85);
    mem.poke(0x0055, 0x77);
    let mut cpu = fresh(0x00);
    cpu.x_index = 0xD0;
    assert!(matches!(
        read_zeropage_indexed(&mut cpu, &mut mem, IndexRegister::X, ReadOp::Lda),
        CycleResult::Continue
    ));
    cpu.current_cycle = 2;
    assert!(matches!(
        read_zeropage_indexed(&mut cpu, &mut mem, IndexRegister::X, ReadOp::Lda),
        CycleResult::Continue
    ));
    assert!(cpu.effective_address <= 0xFF);
    cpu.current_cycle = 3;
    assert!(matches!(
        read_zeropage_indexed(&mut cpu, &mut mem, IndexRegister::X, ReadOp::Lda),
        CycleResult::Break
    ));
    assert_eq!(cpu.accumulator, 0x77);
}

#[test]
fn read_absolute_assembles_little_endian_address() {
    let mut mem = MemoryBus::new();
    mem.poke(ORIGIN, 0x34);
    mem.poke(ORIGIN + 1, 0x12);
    mem.poke(0x1234, 0xC3);
    let mut cpu = fresh(0x00);
    assert!(matches!(read_absolute(&mut cpu, &mut mem, ReadOp::Lda), CycleResult::Continue));
    cpu.current_cycle = 2;
    assert!(matches!(read_absolute(&mut cpu, &mut mem, ReadOp::Lda), CycleResult::Continue));
    assert_eq!(cpu.effective_address, 0x1234);
    cpu.current_cycle = 3;
    assert!(matches!(read_absolute(&mut cpu, &mut mem, ReadOp::Lda), CycleResult::Break));
    assert_eq!(cpu.accumulator, 0xC3);
}

#[test]
fn read_absolute_indexed_keeps_the_carry_out_of_the_status_register() {
    let mut mem = MemoryBus::new();
    mem.poke(ORIGIN, 0xFF);
    mem.poke(ORIGIN + 1, 0x00);
    mem.poke(0x0100, 0xAB);
    let mut cpu = fresh(0x00);
    cpu.x_index = 0x01;
    let flags_before = cpu.flags;
    assert!(matches!(
        read_absolute_indexed(&mut cpu, &mut mem, IndexRegister::X, ReadOp::Lda),
        CycleResult::Continue
    ));
    cpu.current_cycle = 2;
    assert!(matches!(
        read_absolute_indexed(&mut cpu, &mut mem, IndexRegister::X, ReadOp::Lda),
        CycleResult::Continue
    ));
    assert!(
        cpu.internal_flags.effective_addr_carry,
        "the page-cross bit lives in the internal flag set"
    );
    assert_eq!(cpu.flags, flags_before, "no architectural flag may move during fix-up");
    cpu.current_cycle = 3;
    assert!(matches!(
        read_absolute_indexed(&mut cpu, &mut mem, IndexRegister::X, ReadOp::Lda),
        CycleResult::Continue
    ));
    cpu.current_cycle = 4;
    assert!(matches!(
        read_absolute_indexed(&mut cpu, &mut mem, IndexRegister::X, ReadOp::Lda),
        CycleResult::Break
    ));
    assert_eq!(cpu.accumulator, 0xAB);
}

#[test]
fn read_absolute_indexed_breaks_early_without_page_cross() {
    let mut mem = MemoryBus::new();
    mem.poke(ORIGIN, 0x10);
    mem.poke(ORIGIN + 1, 0x04);
    mem.poke(0x0415, 0x66);
    let mut cpu = fresh(0x00);
    cpu.y_index = 0x05;
    assert!(matches!(
        read_absolute_indexed(&mut cpu, &mut mem, IndexRegister::Y, ReadOp::Lda),
        CycleResult::Continue
    ));
    cpu.current_cycle = 2;
    assert!(matches!(
        read_absolute_indexed(&mut cpu, &mut mem, IndexRegister::Y, ReadOp::Lda),
        CycleResult::Continue
    ));
    assert!(!cpu.internal_flags.effective_addr_carry);
    cpu.current_cycle = 3;
    assert!(matches!(
        read_absolute_indexed(&mut cpu, &mut mem, IndexRegister::Y, ReadOp::Lda),
        CycleResult::Break
    ));
    assert_eq!(cpu.accumulator, 0x66);
}
