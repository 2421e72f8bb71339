//! Store templates: the memory-access patterns of STA, STX and STY.
//!
//! The cycle layout mirrors the read templates, but the final cycle writes
//! the source register to the effective address instead of loading an
//! operand. The indexed absolute and indirect,Y stores always pay the
//! fix-up cycle, page cross or not: the chip cannot know whether the write
//! is safe to commit before the address is corrected, and a write to the
//! wrong address could hit a peripheral.

use vstd::prelude::*;

use crate::cpu::cycle_matches;
use crate::cpu::low_byte;
use crate::cpu::page_fixup;
use crate::cpu::pc_advanced;
use crate::cpu::Cpu;
use crate::cpu::CycleResult;
use crate::cpu::CycleSpec;
use crate::cpu::fetch_from_pc;
use crate::cpu::InternalFlags;
use crate::instructions::adc_carry_out;
use crate::instructions::adc_result;
use crate::instructions::add_with_carry;
use crate::instructions::index_value;
use crate::instructions::IndexRegister;
use crate::instructions::store_source;
use crate::instructions::StoreOp;
use crate::instructions::wrap_add8;
use crate::instructions::wrap_inc8;
use crate::memory::BusOp;
use crate::memory::MemoryBus;

verus! {

/// Cycle-by-cycle effect of the zero-page store template.
/// Cycle 1: fetch the zero-page address at `PC`.
/// Cycle 2: write the source register there.
#[verifier::opaque]
pub open spec fn zeropage_spec(cpu: Cpu, cells: Seq<u8>, op: StoreOp) -> CycleSpec {
    if cpu.current_cycle == 1 {
        let v = cells[cpu.program_counter as int];
        CycleSpec {
            cpu: Cpu { effective_address: v as u16, ..pc_advanced(cpu) },
            bus: BusOp::Read(cpu.program_counter, v),
            done: false,
        }
    } else {
        CycleSpec {
            cpu,
            bus: BusOp::Write(cpu.effective_address, store_source(cpu, op)),
            done: true,
        }
    }
}

/// The 3-cycle zero-page store template.
pub fn zeropage(cpu: &mut Cpu, memory: &mut MemoryBus, op: StoreOp) -> (r: CycleResult)
    requires
        old(memory).wf(),
        1 <= old(cpu).current_cycle <= 2,
    ensures
        final(memory).wf(),
        cycle_matches(
            *old(cpu),
            *old(memory),
            *final(cpu),
            *final(memory),
            r,
            zeropage_spec(*old(cpu), old(memory).contents(), op),
        ),
        final(cpu).current_cycle == old(cpu).current_cycle,
{
    proof {
        reveal(crate::templates::store::zeropage_spec);
    }
    if cpu.current_cycle == 1 {
        let lo = fetch_from_pc(cpu, memory);
        cpu.effective_address = lo as u16;
        CycleResult::Continue
    } else {
        let value = read_store_source(cpu, op);
        memory.store(cpu.effective_address, value);
        CycleResult::Break
    }
}

/// Cycle-by-cycle effect of the zero-page indexed store template.
/// Cycle 1: fetch the base zero-page address at `PC`.
/// Cycle 2: dummy read at the base address; add the index register,
/// wrapping within the zero page.
/// Cycle 3: write the source register.
#[verifier::opaque]
pub open spec fn zeropage_indexed_spec(
    cpu: Cpu,
    cells: Seq<u8>,
    index: IndexRegister,
    op: StoreOp,
) -> CycleSpec {
    if cpu.current_cycle == 1 {
        let v = cells[cpu.program_counter as int];
        CycleSpec {
            cpu: Cpu { effective_address: v as u16, ..pc_advanced(cpu) },
            bus: BusOp::Read(cpu.program_counter, v),
            done: false,
        }
    } else if cpu.current_cycle == 2 {
        let dummy = cells[cpu.effective_address as int];
        let ea = wrap_add8(low_byte(cpu.effective_address), index_value(cpu, index));
        CycleSpec {
            cpu: Cpu { effective_address: ea as u16, ..cpu },
            bus: BusOp::Read(cpu.effective_address, dummy),
            done: false,
        }
    } else {
        CycleSpec {
            cpu,
            bus: BusOp::Write(cpu.effective_address, store_source(cpu, op)),
            done: true,
        }
    }
}

/// The 4-cycle zero-page indexed store template. Indexing wraps modulo 256:
/// the write never leaves the zero page.
pub fn zeropage_indexed(
    cpu: &mut Cpu,
    memory: &mut MemoryBus,
    index: IndexRegister,
    op: StoreOp,
) -> (r: CycleResult)
    requires
        old(memory).wf(),
        1 <= old(cpu).current_cycle <= 3,
    ensures
        final(memory).wf(),
        cycle_matches(
            *old(cpu),
            *old(memory),
            *final(cpu),
            *final(memory),
            r,
            zeropage_indexed_spec(*old(cpu), old(memory).contents(), index, op),
        ),
        old(cpu).current_cycle == 2 ==> final(cpu).effective_address <= 0xFF,
        final(cpu).current_cycle == old(cpu).current_cycle,
{
    proof {
        reveal(crate::templates::store::zeropage_indexed_spec);
    }
    if cpu.current_cycle == 1 {
        let lo = fetch_from_pc(cpu, memory);
        cpu.effective_address = lo as u16;
        CycleResult::Continue
    } else if cpu.current_cycle == 2 {
        let _ = memory.load(cpu.effective_address);
        let idx = read_index(cpu, index);
        cpu.effective_address = ((cpu.effective_address % 256) as u8).wrapping_add(idx) as u16;
        CycleResult::Continue
    } else {
        let value = read_store_source(cpu, op);
        memory.store(cpu.effective_address, value);
        CycleResult::Break
    }
}

/// Zero-page,X store: the zero-page indexed template with the X register.
pub fn zeropage_x(cpu: &mut Cpu, memory: &mut MemoryBus, op: StoreOp) -> (r: CycleResult)
    requires
        old(memory).wf(),
        1 <= old(cpu).current_cycle <= 3,
    ensures
        final(memory).wf(),
        cycle_matches(
            *old(cpu),
            *old(memory),
            *final(cpu),
            *final(memory),
            r,
            zeropage_indexed_spec(*old(cpu), old(memory).contents(), IndexRegister::X, op),
        ),
        final(cpu).current_cycle == old(cpu).current_cycle,
{
    zeropage_indexed(cpu, memory, IndexRegister::X, op)
}

/// Zero-page,Y store: the zero-page indexed template with the Y register.
pub fn zeropage_y(cpu: &mut Cpu, memory: &mut MemoryBus, op: StoreOp) -> (r: CycleResult)
    requires
        old(memory).wf(),
        1 <= old(cpu).current_cycle <= 3,
    ensures
        final(memory).wf(),
        cycle_matches(
            *old(cpu),
            *old(memory),
            *final(cpu),
            *final(memory),
            r,
            zeropage_indexed_spec(*old(cpu), old(memory).contents(), IndexRegister::Y, op),
        ),
        final(cpu).current_cycle == old(cpu).current_cycle,
{
    zeropage_indexed(cpu, memory, IndexRegister::Y, op)
}

/// Cycle-by-cycle effect of the absolute store template.
/// Cycle 1: fetch the address low byte at `PC`.
/// Cycle 2: fetch the address high byte at `PC`.
/// Cycle 3: write the source register.
#[verifier::opaque]
pub open spec fn absolute_spec(cpu: Cpu, cells: Seq<u8>, op: StoreOp) -> CycleSpec {
    if cpu.current_cycle == 1 {
        let v = cells[cpu.program_counter as int];
        CycleSpec {
            cpu: Cpu { effective_address: v as u16, ..pc_advanced(cpu) },
            bus: BusOp::Read(cpu.program_counter, v),
            done: false,
        }
    } else if cpu.current_cycle == 2 {
        let hi = cells[cpu.program_counter as int];
        CycleSpec {
            cpu: Cpu {
                effective_address: (hi * 256 + low_byte(cpu.effective_address)) as u16,
                ..pc_advanced(cpu)
            },
            bus: BusOp::Read(cpu.program_counter, hi),
            done: false,
        }
    } else {
        CycleSpec {
            cpu,
            bus: BusOp::Write(cpu.effective_address, store_source(cpu, op)),
            done: true,
        }
    }
}

/// The 4-cycle absolute store template.
pub fn absolute(cpu: &mut Cpu, memory: &mut MemoryBus, op: StoreOp) -> (r: CycleResult)
    requires
        old(memory).wf(),
        1 <= old(cpu).current_cycle <= 3,
    ensures
        final(memory).wf(),
        cycle_matches(
            *old(cpu),
            *old(memory),
            *final(cpu),
            *final(memory),
            r,
            absolute_spec(*old(cpu), old(memory).contents(), op),
        ),
        final(cpu).current_cycle == old(cpu).current_cycle,
{
    proof {
        reveal(crate::templates::store::absolute_spec);
    }
    if cpu.current_cycle == 1 {
        let lo = fetch_from_pc(cpu, memory);
        cpu.effective_address = lo as u16;
        CycleResult::Continue
    } else if cpu.current_cycle == 2 {
        let hi = fetch_from_pc(cpu, memory);
        cpu.effective_address = (hi as u16) * 256 + cpu.effective_address % 256;
        CycleResult::Continue
    } else {
        let value = read_store_source(cpu, op);
        memory.store(cpu.effective_address, value);
        CycleResult::Break
    }
}

/// Cycle-by-cycle effect of the absolute indexed store template.
/// Cycle 1: fetch the address low byte at `PC`.
/// Cycle 2: fetch the high byte; add the index register to the low byte,
/// recording the page-cross carry in the internal flags.
/// Cycle 3: dummy read at the page-wrapped address; fix the address up by
/// one page if the carry is set. The extra cycle is always taken.
/// Cycle 4: write the source register at the corrected address.
#[verifier::opaque]
pub open spec fn absolute_indexed_spec(
    cpu: Cpu,
    cells: Seq<u8>,
    index: IndexRegister,
    op: StoreOp,
) -> CycleSpec {
    if cpu.current_cycle == 1 {
        let v = cells[cpu.program_counter as int];
        CycleSpec {
            cpu: Cpu { effective_address: v as u16, ..pc_advanced(cpu) },
            bus: BusOp::Read(cpu.program_counter, v),
            done: false,
        }
    } else if cpu.current_cycle == 2 {
        let hi = cells[cpu.program_counter as int];
        let lo = adc_result(low_byte(cpu.effective_address), index_value(cpu, index), false);
        let carry = adc_carry_out(low_byte(cpu.effective_address), index_value(cpu, index), false);
        CycleSpec {
            cpu: Cpu {
                effective_address: (hi * 256 + lo) as u16,
                internal_flags: InternalFlags { effective_addr_carry: carry },
                ..pc_advanced(cpu)
            },
            bus: BusOp::Read(cpu.program_counter, hi),
            done: false,
        }
    } else if cpu.current_cycle == 3 {
        let v = cells[cpu.effective_address as int];
        CycleSpec {
            cpu: if cpu.internal_flags.effective_addr_carry {
                Cpu { effective_address: page_fixup(cpu.effective_address), ..cpu }
            } else {
                cpu
            },
            bus: BusOp::Read(cpu.effective_address, v),
            done: false,
        }
    } else {
        CycleSpec {
            cpu,
            bus: BusOp::Write(cpu.effective_address, store_source(cpu, op)),
            done: true,
        }
    }
}

/// The absolute indexed store template: always 5 cycles, page cross or not.
pub fn absolute_indexed(
    cpu: &mut Cpu,
    memory: &mut MemoryBus,
    index: IndexRegister,
    op: StoreOp,
) -> (r: CycleResult)
    requires
        old(memory).wf(),
        1 <= old(cpu).current_cycle <= 4,
    ensures
        final(memory).wf(),
        cycle_matches(
            *old(cpu),
            *old(memory),
            *final(cpu),
            *final(memory),
            r,
            absolute_indexed_spec(*old(cpu), old(memory).contents(), index, op),
        ),
        final(cpu).current_cycle == old(cpu).current_cycle,
{
    proof {
        reveal(crate::templates::store::absolute_indexed_spec);
    }
    if cpu.current_cycle == 1 {
        let lo = fetch_from_pc(cpu, memory);
        cpu.effective_address = lo as u16;
        CycleResult::Continue
    } else if cpu.current_cycle == 2 {
        let hi = fetch_from_pc(cpu, memory);
        let idx = read_index(cpu, index);
        let (lo, carry) = add_with_carry((cpu.effective_address % 256) as u8, idx, false);
        cpu.effective_address = (hi as u16) * 256 + lo as u16;
        cpu.internal_flags.effective_addr_carry = carry;
        CycleResult::Continue
    } else if cpu.current_cycle == 3 {
        // the dummy read is owed to the bus whether or not a page was crossed
        let _ = memory.load(cpu.effective_address);
        if cpu.internal_flags.effective_addr_carry {
            cpu.effective_address = cpu.effective_address.wrapping_add(0x100);
        }
        CycleResult::Continue
    } else {
        let value = read_store_source(cpu, op);
        memory.store(cpu.effective_address, value);
        CycleResult::Break
    }
}

/// Absolute,X store: the absolute indexed template with the X register.
pub fn absolute_x(cpu: &mut Cpu, memory: &mut MemoryBus, op: StoreOp) -> (r: CycleResult)
    requires
        old(memory).wf(),
        1 <= old(cpu).current_cycle <= 4,
    ensures
        final(memory).wf(),
        cycle_matches(
            *old(cpu),
            *old(memory),
            *final(cpu),
            *final(memory),
            r,
            absolute_indexed_spec(*old(cpu), old(memory).contents(), IndexRegister::X, op),
        ),
        final(cpu).current_cycle == old(cpu).current_cycle,
{
    absolute_indexed(cpu, memory, IndexRegister::X, op)
}

/// Absolute,Y store: the absolute indexed template with the Y register.
pub fn absolute_y(cpu: &mut Cpu, memory: &mut MemoryBus, op: StoreOp) -> (r: CycleResult)
    requires
        old(memory).wf(),
        1 <= old(cpu).current_cycle <= 4,
    ensures
        final(memory).wf(),
        cycle_matches(
            *old(cpu),
            *old(memory),
            *final(cpu),
            *final(memory),
            r,
            absolute_indexed_spec(*old(cpu), old(memory).contents(), IndexRegister::Y, op),
        ),
        final(cpu).current_cycle == old(cpu).current_cycle,
{
    absolute_indexed(cpu, memory, IndexRegister::Y, op)
}

/// Cycle-by-cycle effect of the indirect,X store template.
/// Cycles 1–4 compute the effective address exactly as the indirect,X read
/// template does; cycle 5 writes the source register.
#[verifier::opaque]
pub open spec fn indirect_x_spec(cpu: Cpu, cells: Seq<u8>, op: StoreOp) -> CycleSpec {
    if cpu.current_cycle == 1 {
        let v = cells[cpu.program_counter as int];
        CycleSpec {
            cpu: Cpu { pointer_address: v, ..pc_advanced(cpu) },
            bus: BusOp::Read(cpu.program_counter, v),
            done: false,
        }
    } else if cpu.current_cycle == 2 {
        let dummy = cells[cpu.pointer_address as int];
        CycleSpec {
            cpu: Cpu { pointer_address: wrap_add8(cpu.pointer_address, cpu.x_index), ..cpu },
            bus: BusOp::Read(cpu.pointer_address as u16, dummy),
            done: false,
        }
    } else if cpu.current_cycle == 3 {
        let v = cells[cpu.pointer_address as int];
        CycleSpec {
            cpu: Cpu { effective_address: v as u16, ..cpu },
            bus: BusOp::Read(cpu.pointer_address as u16, v),
            done: false,
        }
    } else if cpu.current_cycle == 4 {
        let hi = cells[wrap_inc8(cpu.pointer_address) as int];
        CycleSpec {
            cpu: Cpu {
                effective_address: (hi * 256 + low_byte(cpu.effective_address)) as u16,
                ..cpu
            },
            bus: BusOp::Read(wrap_inc8(cpu.pointer_address) as u16, hi),
            done: false,
        }
    } else {
        CycleSpec {
            cpu,
            bus: BusOp::Write(cpu.effective_address, store_source(cpu, op)),
            done: true,
        }
    }
}

/// The 6-cycle indirect,X store template. Both pointer reads stay within
/// the zero page.
pub fn indirect_x(cpu: &mut Cpu, memory: &mut MemoryBus, op: StoreOp) -> (r: CycleResult)
    requires
        old(memory).wf(),
        1 <= old(cpu).current_cycle <= 5,
    ensures
        final(memory).wf(),
        cycle_matches(
            *old(cpu),
            *old(memory),
            *final(cpu),
            *final(memory),
            r,
            indirect_x_spec(*old(cpu), old(memory).contents(), op),
        ),
        final(cpu).current_cycle == old(cpu).current_cycle,
{
    proof {
        reveal(crate::templates::store::indirect_x_spec);
    }
    if cpu.current_cycle == 1 {
        let ptr = fetch_from_pc(cpu, memory);
        cpu.pointer_address = ptr;
        CycleResult::Continue
    } else if cpu.current_cycle == 2 {
        let _ = memory.load(cpu.pointer_address as u16);
        cpu.pointer_address = cpu.pointer_address.wrapping_add(cpu.x_index);
        CycleResult::Continue
    } else if cpu.current_cycle == 3 {
        let lo = memory.load(cpu.pointer_address as u16);
        cpu.effective_address = lo as u16;
        CycleResult::Continue
    } else if cpu.current_cycle == 4 {
        let hi = memory.load(cpu.pointer_address.wrapping_add(1) as u16);
        cpu.effective_address = (hi as u16) * 256 + cpu.effective_address % 256;
        CycleResult::Continue
    } else {
        let value = read_store_source(cpu, op);
        memory.store(cpu.effective_address, value);
        CycleResult::Break
    }
}

/// Cycle-by-cycle effect of the indirect,Y store template.
/// Cycles 1–3 compute the page-wrapped address exactly as the indirect,Y
/// read template does. Cycle 4 performs the dummy read and fixes the
/// address up if a page was crossed — always taken. Cycle 5 writes.
#[verifier::opaque]
pub open spec fn indirect_y_spec(cpu: Cpu, cells: Seq<u8>, op: StoreOp) -> CycleSpec {
    if cpu.current_cycle == 1 {
        let v = cells[cpu.program_counter as int];
        CycleSpec {
            cpu: Cpu { pointer_address: v, ..pc_advanced(cpu) },
            bus: BusOp::Read(cpu.program_counter, v),
            done: false,
        }
    } else if cpu.current_cycle == 2 {
        let v = cells[cpu.pointer_address as int];
        CycleSpec {
            cpu: Cpu { effective_address: v as u16, ..cpu },
            bus: BusOp::Read(cpu.pointer_address as u16, v),
            done: false,
        }
    } else if cpu.current_cycle == 3 {
        let hi = cells[wrap_inc8(cpu.pointer_address) as int];
        let lo = adc_result(low_byte(cpu.effective_address), cpu.y_index, false);
        let carry = adc_carry_out(low_byte(cpu.effective_address), cpu.y_index, false);
        CycleSpec {
            cpu: Cpu {
                effective_address: (hi * 256 + lo) as u16,
                internal_flags: InternalFlags { effective_addr_carry: carry },
                ..cpu
            },
            bus: BusOp::Read(wrap_inc8(cpu.pointer_address) as u16, hi),
            done: false,
        }
    } else if cpu.current_cycle == 4 {
        let v = cells[cpu.effective_address as int];
        CycleSpec {
            cpu: if cpu.internal_flags.effective_addr_carry {
                Cpu { effective_address: page_fixup(cpu.effective_address), ..cpu }
            } else {
                cpu
            },
            bus: BusOp::Read(cpu.effective_address, v),
            done: false,
        }
    } else {
        CycleSpec {
            cpu,
            bus: BusOp::Write(cpu.effective_address, store_source(cpu, op)),
            done: true,
        }
    }
}

/// The indirect,Y store template: always 6 cycles, page cross or not.
pub fn indirect_y(cpu: &mut Cpu, memory: &mut MemoryBus, op: StoreOp) -> (r: CycleResult)
    requires
        old(memory).wf(),
        1 <= old(cpu).current_cycle <= 5,
    ensures
        final(memory).wf(),
        cycle_matches(
            *old(cpu),
            *old(memory),
            *final(cpu),
            *final(memory),
            r,
            indirect_y_spec(*old(cpu), old(memory).contents(), op),
        ),
        final(cpu).current_cycle == old(cpu).current_cycle,
{
    proof {
        reveal(crate::templates::store::indirect_y_spec);
    }
    if cpu.current_cycle == 1 {
        let ptr = fetch_from_pc(cpu, memory);
        cpu.pointer_address = ptr;
        CycleResult::Continue
    } else if cpu.current_cycle == 2 {
        let lo = memory.load(cpu.pointer_address as u16);
        cpu.effective_address = lo as u16;
        CycleResult::Continue
    } else if cpu.current_cycle == 3 {
        let hi = memory.load(cpu.pointer_address.wrapping_add(1) as u16);
        let (lo, carry) = add_with_carry((cpu.effective_address % 256) as u8, cpu.y_index, false);
        cpu.effective_address = (hi as u16) * 256 + lo as u16;
        cpu.internal_flags.effective_addr_carry = carry;
        CycleResult::Continue
    } else if cpu.current_cycle == 4 {
        // the dummy read is owed to the bus whether or not a page was crossed
        let _ = memory.load(cpu.effective_address);
        if cpu.internal_flags.effective_addr_carry {
            cpu.effective_address = cpu.effective_address.wrapping_add(0x100);
        }
        CycleResult::Continue
    } else {
        let value = read_store_source(cpu, op);
        memory.store(cpu.effective_address, value);
        CycleResult::Break
    }
}

/// The value of the chosen index register.
fn read_index(cpu: &Cpu, index: IndexRegister) -> (r: u8)
    ensures
        r == index_value(*cpu, index),
{
    match index {
        IndexRegister::X => cpu.x_index,
        IndexRegister::Y => cpu.y_index,
    }
}

/// The register this store writes to memory.
fn read_store_source(cpu: &Cpu, op: StoreOp) -> (r: u8)
    ensures
        r == store_source(*cpu, op),
{
    match op {
        StoreOp::Sta => cpu.accumulator,
        StoreOp::Stx => cpu.x_index,
        StoreOp::Sty => cpu.y_index,
    }
}

} // verus!
