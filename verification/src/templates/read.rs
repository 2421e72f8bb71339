//! Read templates: the multi-cycle memory-access patterns of every
//! instruction that loads one operand byte and applies an operation to it.
//!
//! Each function handles one cycle per call, keyed off `current_cycle`
//! (cycle 0, the opcode fetch, belongs to the dispatcher). The page-cross
//! carry of the indexed modes lives in the CPU's internal flag set, because
//! the affected instructions leave the architectural CARRY flag unchanged.
//! Every cycle performs exactly one bus transaction; the dummy reads are
//! part of the contract and appear in the bus trace.

use vstd::prelude::*;

use crate::cpu::cycle_matches;
use crate::cpu::low_byte;
use crate::cpu::page_fixup;
use crate::cpu::pc_advanced;
use crate::cpu::Cpu;
use crate::cpu::CycleResult;
use crate::cpu::CycleSpec;
use crate::cpu::fetch_from_pc;
use crate::cpu::InternalFlags;
use crate::instructions::adc_carry_out;
use crate::instructions::adc_result;
use crate::instructions::add_with_carry;
use crate::instructions::apply_read_op;
use crate::instructions::exec_read_op;
use crate::instructions::index_value;
use crate::instructions::IndexRegister;
use crate::instructions::ReadOp;
use crate::instructions::wrap_add8;
use crate::instructions::wrap_inc8;
use crate::memory::BusOp;
use crate::memory::MemoryBus;

verus! {

broadcast use crate::instructions::lemma_read_op_scratch_frame;


/// Cycle-by-cycle effect of the immediate read template, for
/// `current_cycle == 1`: fetch the operand at `PC`, advance `PC`, apply the
/// operation; the instruction is complete.
#[verifier::opaque]
pub open spec fn immediate_spec(cpu: Cpu, cells: Seq<u8>, op: ReadOp) -> CycleSpec {
    let v = cells[cpu.program_counter as int];
    CycleSpec {
        cpu: apply_read_op(pc_advanced(cpu), op, v),
        bus: BusOp::Read(cpu.program_counter, v),
        done: true,
    }
}

/// The 2-cycle immediate read template.
pub fn immediate(cpu: &mut Cpu, memory: &mut MemoryBus, op: ReadOp) -> (r: CycleResult)
    requires
        old(memory).wf(),
        old(cpu).current_cycle == 1,
    ensures
        final(memory).wf(),
        cycle_matches(
            *old(cpu),
            *old(memory),
            *final(cpu),
            *final(memory),
            r,
            immediate_spec(*old(cpu), old(memory).contents(), op),
        ),
        final(cpu).current_cycle == old(cpu).current_cycle,
{
    proof {
        reveal(crate::templates::read::immediate_spec);
    }
    let value = fetch_from_pc(cpu, memory);
    exec_read_op(cpu, op, value);
    CycleResult::Break
}

/// Cycle-by-cycle effect of the zero-page read template.
/// Cycle 1: fetch the zero-page address at `PC` (high byte 0).
/// Cycle 2: load the operand there and apply the operation.
#[verifier::opaque]
pub open spec fn zeropage_spec(cpu: Cpu, cells: Seq<u8>, op: ReadOp) -> CycleSpec {
    if cpu.current_cycle == 1 {
        let v = cells[cpu.program_counter as int];
        CycleSpec {
            cpu: Cpu { effective_address: v as u16, ..pc_advanced(cpu) },
            bus: BusOp::Read(cpu.program_counter, v),
            done: false,
        }
    } else {
        let v = cells[cpu.effective_address as int];
        CycleSpec {
            cpu: apply_read_op(cpu, op, v),
            bus: BusOp::Read(cpu.effective_address, v),
            done: true,
        }
    }
}

/// The 3-cycle zero-page read template.
pub fn zeropage(cpu: &mut Cpu, memory: &mut MemoryBus, op: ReadOp) -> (r: CycleResult)
    requires
        old(memory).wf(),
        1 <= old(cpu).current_cycle <= 2,
    ensures
        final(memory).wf(),
        cycle_matches(
            *old(cpu),
            *old(memory),
            *final(cpu),
            *final(memory),
            r,
            zeropage_spec(*old(cpu), old(memory).contents(), op),
        ),
        final(cpu).current_cycle == old(cpu).current_cycle,
{
    proof {
        reveal(crate::templates::read::zeropage_spec);
    }
    if cpu.current_cycle == 1 {
        let lo = fetch_from_pc(cpu, memory);
        cpu.effective_address = lo as u16;
        CycleResult::Continue
    } else {
        let value = memory.load(cpu.effective_address);
        exec_read_op(cpu, op, value);
        CycleResult::Break
    }
}

/// Cycle-by-cycle effect of the zero-page indexed read template.
/// Cycle 1: fetch the base zero-page address at `PC`.
/// Cycle 2: dummy read at the base address; add the index register to the
/// low byte, wrapping within the zero page.
/// Cycle 3: load the operand and apply the operation.
#[verifier::opaque]
pub open spec fn zeropage_indexed_spec(
    cpu: Cpu,
    cells: Seq<u8>,
    index: IndexRegister,
    op: ReadOp,
) -> CycleSpec {
    if cpu.current_cycle == 1 {
        let v = cells[cpu.program_counter as int];
        CycleSpec {
            cpu: Cpu { effective_address: v as u16, ..pc_advanced(cpu) },
            bus: BusOp::Read(cpu.program_counter, v),
            done: false,
        }
    } else if cpu.current_cycle == 2 {
        let dummy = cells[cpu.effective_address as int];
        let ea = wrap_add8(low_byte(cpu.effective_address), index_value(cpu, index));
        CycleSpec {
            cpu: Cpu { effective_address: ea as u16, ..cpu },
            bus: BusOp::Read(cpu.effective_address, dummy),
            done: false,
        }
    } else {
        let v = cells[cpu.effective_address as int];
        CycleSpec {
            cpu: apply_read_op(cpu, op, v),
            bus: BusOp::Read(cpu.effective_address, v),
            done: true,
        }
    }
}

/// The 4-cycle zero-page indexed read template. Indexing wraps modulo 256:
/// the effective address it loads from never leaves the zero page.
pub fn zeropage_indexed(
    cpu: &mut Cpu,
    memory: &mut MemoryBus,
    index: IndexRegister,
    op: ReadOp,
) -> (r: CycleResult)
    requires
        old(memory).wf(),
        1 <= old(cpu).current_cycle <= 3,
    ensures
        final(memory).wf(),
        cycle_matches(
            *old(cpu),
            *old(memory),
            *final(cpu),
            *final(memory),
            r,
            zeropage_indexed_spec(*old(cpu), old(memory).contents(), index, op),
        ),
        old(cpu).current_cycle == 2 ==> final(cpu).effective_address <= 0xFF,
        final(cpu).current_cycle == old(cpu).current_cycle,
{
    proof {
        reveal(crate::templates::read::zeropage_indexed_spec);
    }
    if cpu.current_cycle == 1 {
        let lo = fetch_from_pc(cpu, memory);
        cpu.effective_address = lo as u16;
        CycleResult::Continue
    } else if cpu.current_cycle == 2 {
        let _ = memory.load(cpu.effective_address);
        let idx = read_index(cpu, index);
        cpu.effective_address = ((cpu.effective_address % 256) as u8).wrapping_add(idx) as u16;
        CycleResult::Continue
    } else {
        let value = memory.load(cpu.effective_address);
        exec_read_op(cpu, op, value);
        CycleResult::Break
    }
}

/// Zero-page,X read: the zero-page indexed template with the X register.
pub fn zeropage_x(cpu: &mut Cpu, memory: &mut MemoryBus, op: ReadOp) -> (r: CycleResult)
    requires
        old(memory).wf(),
        1 <= old(cpu).current_cycle <= 3,
    ensures
        final(memory).wf(),
        cycle_matches(
            *old(cpu),
            *old(memory),
            *final(cpu),
            *final(memory),
            r,
            zeropage_indexed_spec(*old(cpu), old(memory).contents(), IndexRegister::X, op),
        ),
        final(cpu).current_cycle == old(cpu).current_cycle,
{
    zeropage_indexed(cpu, memory, IndexRegister::X, op)
}

/// Zero-page,Y read: the zero-page indexed template with the Y register.
pub fn zeropage_y(cpu: &mut Cpu, memory: &mut MemoryBus, op: ReadOp) -> (r: CycleResult)
    requires
        old(memory).wf(),
        1 <= old(cpu).current_cycle <= 3,
    ensures
        final(memory).wf(),
        cycle_matches(
            *old(cpu),
            *old(memory),
            *final(cpu),
            *final(memory),
            r,
            zeropage_indexed_spec(*old(cpu), old(memory).contents(), IndexRegister::Y, op),
        ),
        final(cpu).current_cycle == old(cpu).current_cycle,
{
    zeropage_indexed(cpu, memory, IndexRegister::Y, op)
}

/// Cycle-by-cycle effect of the absolute read template.
/// Cycle 1: fetch the address low byte at `PC`.
/// Cycle 2: fetch the address high byte at `PC`.
/// Cycle 3: load the operand and apply the operation.
#[verifier::opaque]
pub open spec fn absolute_spec(cpu: Cpu, cells: Seq<u8>, op: ReadOp) -> CycleSpec {
    if cpu.current_cycle == 1 {
        let v = cells[cpu.program_counter as int];
        CycleSpec {
            cpu: Cpu { effective_address: v as u16, ..pc_advanced(cpu) },
            bus: BusOp::Read(cpu.program_counter, v),
            done: false,
        }
    } else if cpu.current_cycle == 2 {
        let hi = cells[cpu.program_counter as int];
        CycleSpec {
            cpu: Cpu {
                effective_address: (hi * 256 + low_byte(cpu.effective_address)) as u16,
                ..pc_advanced(cpu)
            },
            bus: BusOp::Read(cpu.program_counter, hi),
            done: false,
        }
    } else {
        let v = cells[cpu.effective_address as int];
        CycleSpec {
            cpu: apply_read_op(cpu, op, v),
            bus: BusOp::Read(cpu.effective_address, v),
            done: true,
        }
    }
}

/// The 4-cycle absolute read template.
pub fn absolute(cpu: &mut Cpu, memory: &mut MemoryBus, op: ReadOp) -> (r: CycleResult)
    requires
        old(memory).wf(),
        1 <= old(cpu).current_cycle <= 3,
    ensures
        final(memory).wf(),
        cycle_matches(
            *old(cpu),
            *old(memory),
            *final(cpu),
            *final(memory),
            r,
            absolute_spec(*old(cpu), old(memory).contents(), op),
        ),
        final(cpu).current_cycle == old(cpu).current_cycle,
{
    proof {
        reveal(crate::templates::read::absolute_spec);
    }
    if cpu.current_cycle == 1 {
        let lo = fetch_from_pc(cpu, memory);
        cpu.effective_address = lo as u16;
        CycleResult::Continue
    } else if cpu.current_cycle == 2 {
        let hi = fetch_from_pc(cpu, memory);
        cpu.effective_address = (hi as u16) * 256 + cpu.effective_address % 256;
        CycleResult::Continue
    } else {
        let value = memory.load(cpu.effective_address);
        exec_read_op(cpu, op, value);
        CycleResult::Break
    }
}

/// Cycle-by-cycle effect of the absolute indexed read template.
/// Cycle 1: fetch the address low byte at `PC`.
/// Cycle 2: fetch the high byte; add the index register to the low byte,
/// recording the page-cross carry in the internal flags — not in the
/// architectural CARRY, which this instruction must leave unchanged.
/// Cycle 3: load at the page-wrapped address. Without a page cross the
/// operation applies and the instruction completes; with one, the loaded
/// value is discarded and the address is fixed up by one page.
/// Cycle 4: load at the corrected address and apply the operation.
#[verifier::opaque]
pub open spec fn absolute_indexed_spec(
    cpu: Cpu,
    cells: Seq<u8>,
    index: IndexRegister,
    op: ReadOp,
) -> CycleSpec {
    if cpu.current_cycle == 1 {
        let v = cells[cpu.program_counter as int];
        CycleSpec {
            cpu: Cpu { effective_address: v as u16, ..pc_advanced(cpu) },
            bus: BusOp::Read(cpu.program_counter, v),
            done: false,
        }
    } else if cpu.current_cycle == 2 {
        let hi = cells[cpu.program_counter as int];
        let lo = adc_result(low_byte(cpu.effective_address), index_value(cpu, index), false);
        let carry = adc_carry_out(low_byte(cpu.effective_address), index_value(cpu, index), false);
        CycleSpec {
            cpu: Cpu {
                effective_address: (hi * 256 + lo) as u16,
                internal_flags: InternalFlags { effective_addr_carry: carry },
                ..pc_advanced(cpu)
            },
            bus: BusOp::Read(cpu.program_counter, hi),
            done: false,
        }
    } else if cpu.current_cycle == 3 {
        let v = cells[cpu.effective_address as int];
        if cpu.internal_flags.effective_addr_carry {
            CycleSpec {
                cpu: Cpu { effective_address: page_fixup(cpu.effective_address), ..cpu },
                bus: BusOp::Read(cpu.effective_address, v),
                done: false,
            }
        } else {
            CycleSpec {
                cpu: apply_read_op(cpu, op, v),
                bus: BusOp::Read(cpu.effective_address, v),
                done: true,
            }
        }
    } else {
        let v = cells[cpu.effective_address as int];
        CycleSpec {
            cpu: apply_read_op(cpu, op, v),
            bus: BusOp::Read(cpu.effective_address, v),
            done: true,
        }
    }
}

/// The absolute indexed read template: 4 cycles, or 5 when the indexing
/// crosses a page.
pub fn absolute_indexed(
    cpu: &mut Cpu,
    memory: &mut MemoryBus,
    index: IndexRegister,
    op: ReadOp,
) -> (r: CycleResult)
    requires
        old(memory).wf(),
        1 <= old(cpu).current_cycle <= 4,
    ensures
        final(memory).wf(),
        cycle_matches(
            *old(cpu),
            *old(memory),
            *final(cpu),
            *final(memory),
            r,
            absolute_indexed_spec(*old(cpu), old(memory).contents(), index, op),
        ),
        final(cpu).current_cycle == old(cpu).current_cycle,
{
    proof {
        reveal(crate::templates::read::absolute_indexed_spec);
    }
    if cpu.current_cycle == 1 {
        let lo = fetch_from_pc(cpu, memory);
        cpu.effective_address = lo as u16;
        CycleResult::Continue
    } else if cpu.current_cycle == 2 {
        let hi = fetch_from_pc(cpu, memory);
        let idx = read_index(cpu, index);
        let (lo, carry) = add_with_carry((cpu.effective_address % 256) as u8, idx, false);
        cpu.effective_address = (hi as u16) * 256 + lo as u16;
        cpu.internal_flags.effective_addr_carry = carry;
        CycleResult::Continue
    } else if cpu.current_cycle == 3 {
        let value = memory.load(cpu.effective_address);
        if cpu.internal_flags.effective_addr_carry {
            // blew through a page: fix up the address, pay one more cycle
            cpu.effective_address = cpu.effective_address.wrapping_add(0x100);
            CycleResult::Continue
        } else {
            exec_read_op(cpu, op, value);
            CycleResult::Break
        }
    } else {
        let value = memory.load(cpu.effective_address);
        exec_read_op(cpu, op, value);
        CycleResult::Break
    }
}

/// Absolute,X read: the absolute indexed template with the X register.
pub fn absolute_x(cpu: &mut Cpu, memory: &mut MemoryBus, op: ReadOp) -> (r: CycleResult)
    requires
        old(memory).wf(),
        1 <= old(cpu).current_cycle <= 4,
    ensures
        final(memory).wf(),
        cycle_matches(
            *old(cpu),
            *old(memory),
            *final(cpu),
            *final(memory),
            r,
            absolute_indexed_spec(*old(cpu), old(memory).contents(), IndexRegister::X, op),
        ),
        final(cpu).current_cycle == old(cpu).current_cycle,
{
    absolute_indexed(cpu, memory, IndexRegister::X, op)
}

/// Absolute,Y read: the absolute indexed template with the Y register.
pub fn absolute_y(cpu: &mut Cpu, memory: &mut MemoryBus, op: ReadOp) -> (r: CycleResult)
    requires
        old(memory).wf(),
        1 <= old(cpu).current_cycle <= 4,
    ensures
        final(memory).wf(),
        cycle_matches(
            *old(cpu),
            *old(memory),
            *final(cpu),
            *final(memory),
            r,
            absolute_indexed_spec(*old(cpu), old(memory).contents(), IndexRegister::Y, op),
        ),
        final(cpu).current_cycle == old(cpu).current_cycle,
{
    absolute_indexed(cpu, memory, IndexRegister::Y, op)
}

/// Cycle-by-cycle effect of the indirect,X read template.
/// Cycle 1: fetch the zero-page pointer base at `PC`.
/// Cycle 2: dummy read at the pointer; add X to it, wrapping in zero page.
/// Cycle 3: read the effective address low byte at the pointer.
/// Cycle 4: read the high byte at pointer + 1, wrapped within the zero page.
/// Cycle 5: load the operand and apply the operation.
#[verifier::opaque]
pub open spec fn indirect_x_spec(cpu: Cpu, cells: Seq<u8>, op: ReadOp) -> CycleSpec {
    if cpu.current_cycle == 1 {
        let v = cells[cpu.program_counter as int];
        CycleSpec {
            cpu: Cpu { pointer_address: v, ..pc_advanced(cpu) },
            bus: BusOp::Read(cpu.program_counter, v),
            done: false,
        }
    } else if cpu.current_cycle == 2 {
        let dummy = cells[cpu.pointer_address as int];
        CycleSpec {
            cpu: Cpu { pointer_address: wrap_add8(cpu.pointer_address, cpu.x_index), ..cpu },
            bus: BusOp::Read(cpu.pointer_address as u16, dummy),
            done: false,
        }
    } else if cpu.current_cycle == 3 {
        let v = cells[cpu.pointer_address as int];
        CycleSpec {
            cpu: Cpu { effective_address: v as u16, ..cpu },
            bus: BusOp::Read(cpu.pointer_address as u16, v),
            done: false,
        }
    } else if cpu.current_cycle == 4 {
        let hi = cells[wrap_inc8(cpu.pointer_address) as int];
        CycleSpec {
            cpu: Cpu {
                effective_address: (hi * 256 + low_byte(cpu.effective_address)) as u16,
                ..cpu
            },
            bus: BusOp::Read(wrap_inc8(cpu.pointer_address) as u16, hi),
            done: false,
        }
    } else {
        let v = cells[cpu.effective_address as int];
        CycleSpec {
            cpu: apply_read_op(cpu, op, v),
            bus: BusOp::Read(cpu.effective_address, v),
            done: true,
        }
    }
}

/// The 6-cycle indirect,X read template. Both pointer reads stay within the
/// zero page: the high byte of pointer 0xFF is read at 0x00.
pub fn indirect_x(cpu: &mut Cpu, memory: &mut MemoryBus, op: ReadOp) -> (r: CycleResult)
    requires
        old(memory).wf(),
        1 <= old(cpu).current_cycle <= 5,
    ensures
        final(memory).wf(),
        cycle_matches(
            *old(cpu),
            *old(memory),
            *final(cpu),
            *final(memory),
            r,
            indirect_x_spec(*old(cpu), old(memory).contents(), op),
        ),
        final(cpu).current_cycle == old(cpu).current_cycle,
{
    proof {
        reveal(crate::templates::read::indirect_x_spec);
    }
    if cpu.current_cycle == 1 {
        let ptr = fetch_from_pc(cpu, memory);
        cpu.pointer_address = ptr;
        CycleResult::Continue
    } else if cpu.current_cycle == 2 {
        let _ = memory.load(cpu.pointer_address as u16);
        cpu.pointer_address = cpu.pointer_address.wrapping_add(cpu.x_index);
        CycleResult::Continue
    } else if cpu.current_cycle == 3 {
        let lo = memory.load(cpu.pointer_address as u16);
        cpu.effective_address = lo as u16;
        CycleResult::Continue
    } else if cpu.current_cycle == 4 {
        let hi = memory.load(cpu.pointer_address.wrapping_add(1) as u16);
        cpu.effective_address = (hi as u16) * 256 + cpu.effective_address % 256;
        CycleResult::Continue
    } else {
        let value = memory.load(cpu.effective_address);
        exec_read_op(cpu, op, value);
        CycleResult::Break
    }
}

/// Cycle-by-cycle effect of the indirect,Y read template.
/// Cycle 1: fetch the zero-page pointer at `PC`.
/// Cycle 2: read the effective address low byte at the pointer.
/// Cycle 3: read the high byte at pointer + 1 (zero-page wrap); add Y to the
/// low byte, recording the page-cross carry in the internal flags.
/// Cycle 4: load at the page-wrapped address; without a page cross the
/// operation applies, with one the address is fixed up by one page.
/// Cycle 5: load at the corrected address and apply the operation.
#[verifier::opaque]
pub open spec fn indirect_y_spec(cpu: Cpu, cells: Seq<u8>, op: ReadOp) -> CycleSpec {
    if cpu.current_cycle == 1 {
        let v = cells[cpu.program_counter as int];
        CycleSpec {
            cpu: Cpu { pointer_address: v, ..pc_advanced(cpu) },
            bus: BusOp::Read(cpu.program_counter, v),
            done: false,
        }
    } else if cpu.current_cycle == 2 {
        let v = cells[cpu.pointer_address as int];
        CycleSpec {
            cpu: Cpu { effective_address: v as u16, ..cpu },
            bus: BusOp::Read(cpu.pointer_address as u16, v),
            done: false,
        }
    } else if cpu.current_cycle == 3 {
        let hi = cells[wrap_inc8(cpu.pointer_address) as int];
        let lo = adc_result(low_byte(cpu.effective_address), cpu.y_index, false);
        let carry = adc_carry_out(low_byte(cpu.effective_address), cpu.y_index, false);
        CycleSpec {
            cpu: Cpu {
                effective_address: (hi * 256 + lo) as u16,
                internal_flags: InternalFlags { effective_addr_carry: carry },
                ..cpu
            },
            bus: BusOp::Read(wrap_inc8(cpu.pointer_address) as u16, hi),
            done: false,
        }
    } else if cpu.current_cycle == 4 {
        let v = cells[cpu.effective_address as int];
        if cpu.internal_flags.effective_addr_carry {
            CycleSpec {
                cpu: Cpu { effective_address: page_fixup(cpu.effective_address), ..cpu },
                bus: BusOp::Read(cpu.effective_address, v),
                done: false,
            }
        } else {
            CycleSpec {
                cpu: apply_read_op(cpu, op, v),
                bus: BusOp::Read(cpu.effective_address, v),
                done: true,
            }
        }
    } else {
        let v = cells[cpu.effective_address as int];
        CycleSpec {
            cpu: apply_read_op(cpu, op, v),
            bus: BusOp::Read(cpu.effective_address, v),
            done: true,
        }
    }
}

/// The indirect,Y read template: 5 cycles, or 6 when adding Y crosses a
/// page. The pointer's high byte is read with zero-page wrap-around.
pub fn indirect_y(cpu: &mut Cpu, memory: &mut MemoryBus, op: ReadOp) -> (r: CycleResult)
    requires
        old(memory).wf(),
        1 <= old(cpu).current_cycle <= 5,
    ensures
        final(memory).wf(),
        cycle_matches(
            *old(cpu),
            *old(memory),
            *final(cpu),
            *final(memory),
            r,
            indirect_y_spec(*old(cpu), old(memory).contents(), op),
        ),
        final(cpu).current_cycle == old(cpu).current_cycle,
{
    proof {
        reveal(crate::templates::read::indirect_y_spec);
    }
    if cpu.current_cycle == 1 {
        let ptr = fetch_from_pc(cpu, memory);
        cpu.pointer_address = ptr;
        CycleResult::Continue
    } else if cpu.current_cycle == 2 {
        let lo = memory.load(cpu.pointer_address as u16);
        cpu.effective_address = lo as u16;
        CycleResult::Continue
    } else if cpu.current_cycle == 3 {
        let hi = memory.load(cpu.pointer_address.wrapping_add(1) as u16);
        let (lo, carry) = add_with_carry((cpu.effective_address % 256) as u8, cpu.y_index, false);
        cpu.effective_address = (hi as u16) * 256 + lo as u16;
        cpu.internal_flags.effective_addr_carry = carry;
        CycleResult::Continue
    } else if cpu.current_cycle == 4 {
        let value = memory.load(cpu.effective_address);
        if cpu.internal_flags.effective_addr_carry {
            // blew through a page: fix up the address, pay one more cycle
            cpu.effective_address = cpu.effective_address.wrapping_add(0x100);
            CycleResult::Continue
        } else {
            exec_read_op(cpu, op, value);
            CycleResult::Break
        }
    } else {
        let value = memory.load(cpu.effective_address);
        exec_read_op(cpu, op, value);
        CycleResult::Break
    }
}

/// The value of the chosen index register.
fn read_index(cpu: &Cpu, index: IndexRegister) -> (r: u8)
    ensures
        r == index_value(*cpu, index),
{
    match index {
        IndexRegister::X => cpu.x_index,
        IndexRegister::Y => cpu.y_index,
    }
}

} // verus!
