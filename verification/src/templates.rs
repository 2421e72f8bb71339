//! Addressing-mode templates.
//!
//! Most instructions share their memory-access pattern; each template
//! implements one pattern, keyed off `current_cycle`, and is parameterized by
//! the instruction whose semantic effect it applies once the operand byte is
//! available. The templates in `read` and `store` are the ones the
//! dispatcher uses; the `read_`-prefixed templates here are an older
//! generation of the same patterns, kept under their names for callers
//! built against them. Both keep the page-cross carry of the indexed modes
//! in the CPU's internal flag set, never in the architectural status
//! register.

use vstd::prelude::*;

use crate::cpu::cycle_matches;
use crate::cpu::Cpu;
use crate::cpu::CycleResult;
use crate::cpu::CycleSpec;
use crate::cpu::fetch_from_pc;
use crate::instructions::apply_implied_op;
use crate::instructions::add_with_carry;
use crate::instructions::exec_implied_op;
use crate::instructions::exec_read_op;
use crate::instructions::ImpliedOp;
use crate::instructions::IndexRegister;
use crate::instructions::ReadOp;
use crate::memory::BusOp;
use crate::memory::MemoryBus;

pub mod read;
pub mod store;

verus! {

broadcast use crate::instructions::lemma_read_op_scratch_frame, crate::instructions::lemma_implied_op_scratch_frame;


/// Cycle-by-cycle effect of the implied template, for `current_cycle == 1`:
/// a dummy read at `PC` (the value is discarded, `PC` does not move) while
/// the one-byte instruction takes effect.
#[verifier::opaque]
pub open spec fn implied_spec(cpu: Cpu, cells: Seq<u8>, op: ImpliedOp) -> CycleSpec {
    CycleSpec {
        cpu: apply_implied_op(cpu, op),
        bus: BusOp::Read(cpu.program_counter, cells[cpu.program_counter as int]),
        done: true,
    }
}

/// The 2-cycle implied template: cycle 1 performs the dummy read at `PC` that
/// every cycle owes the bus, applies the instruction, and completes.
pub fn implied(cpu: &mut Cpu, memory: &mut MemoryBus, op: ImpliedOp) -> (r: CycleResult)
    requires
        old(memory).wf(),
        old(cpu).current_cycle == 1,
    ensures
        final(memory).wf(),
        cycle_matches(
            *old(cpu),
            *old(memory),
            *final(cpu),
            *final(memory),
            r,
            implied_spec(*old(cpu), old(memory).contents(), op),
        ),
        final(cpu).current_cycle == old(cpu).current_cycle,
{
    proof {
        reveal(crate::templates::implied_spec);
    }
    let _ = memory.load(cpu.program_counter);
    exec_implied_op(cpu, op);
    CycleResult::Break
}


/// The 2-cycle immediate read template, older generation: identical in
/// behavior to `read::immediate`.
pub fn read_immediate(cpu: &mut Cpu, memory: &mut MemoryBus, op: ReadOp) -> (r: CycleResult)
    requires
        old(memory).wf(),
        old(cpu).current_cycle == 1,
    ensures
        final(memory).wf(),
        cycle_matches(
            *old(cpu),
            *old(memory),
            *final(cpu),
            *final(memory),
            r,
            crate::templates::read::immediate_spec(*old(cpu), old(memory).contents(), op),
        ),
        final(cpu).current_cycle == old(cpu).current_cycle,
{
    proof {
        reveal(crate::templates::read::immediate_spec);
    }
    let value = fetch_from_pc(cpu, memory);
    exec_read_op(cpu, op, value);
    CycleResult::Break
}

/// The 3-cycle zero-page read template, older generation: identical in
/// behavior to `read::zeropage`.
pub fn read_zeropage(cpu: &mut Cpu, memory: &mut MemoryBus, op: ReadOp) -> (r: CycleResult)
    requires
        old(memory).wf(),
        1 <= old(cpu).current_cycle <= 2,
    ensures
        final(memory).wf(),
        cycle_matches(
            *old(cpu),
            *old(memory),
            *final(cpu),
            *final(memory),
            r,
            crate::templates::read::zeropage_spec(*old(cpu), old(memory).contents(), op),
        ),
        final(cpu).current_cycle == old(cpu).current_cycle,
{
    proof {
        reveal(crate::templates::read::zeropage_spec);
    }
    if cpu.current_cycle == 1 {
        let lo = fetch_from_pc(cpu, memory);
        cpu.effective_address = lo as u16;
        CycleResult::Continue
    } else {
        let value = memory.load(cpu.effective_address);
        exec_read_op(cpu, op, value);
        CycleResult::Break
    }
}

/// The 4-cycle zero-page indexed read template, older generation: identical
/// in behavior to `read::zeropage_indexed`. The dummy read at the base
/// address occurs, and indexing wraps within the zero page.
pub fn read_zeropage_indexed(
    cpu: &mut Cpu,
    memory: &mut MemoryBus,
    index: IndexRegister,
    op: ReadOp,
) -> (r: CycleResult)
    requires
        old(memory).wf(),
        1 <= old(cpu).current_cycle <= 3,
    ensures
        final(memory).wf(),
        cycle_matches(
            *old(cpu),
            *old(memory),
            *final(cpu),
            *final(memory),
            r,
            crate::templates::read::zeropage_indexed_spec(
                *old(cpu),
                old(memory).contents(),
                index,
                op,
            ),
        ),
        old(cpu).current_cycle == 2 ==> final(cpu).effective_address <= 0xFF,
        final(cpu).current_cycle == old(cpu).current_cycle,
{
    proof {
        reveal(crate::templates::read::zeropage_indexed_spec);
    }
    if cpu.current_cycle == 1 {
        let lo = fetch_from_pc(cpu, memory);
        cpu.effective_address = lo as u16;
        CycleResult::Continue
    } else if cpu.current_cycle == 2 {
        // dummy read: every cycle is a read or a write
        let _ = memory.load(cpu.effective_address);
        let idx: u8 = match index {
            IndexRegister::X => cpu.x_index,
            IndexRegister::Y => cpu.y_index,
        };
        cpu.effective_address = ((cpu.effective_address % 256) as u8).wrapping_add(idx) as u16;
        CycleResult::Continue
    } else {
        let value = memory.load(cpu.effective_address);
        exec_read_op(cpu, op, value);
        CycleResult::Break
    }
}

/// The 4-cycle absolute read template, older generation: identical in
/// behavior to `read::absolute`.
pub fn read_absolute(cpu: &mut Cpu, memory: &mut MemoryBus, op: ReadOp) -> (r: CycleResult)
    requires
        old(memory).wf(),
        1 <= old(cpu).current_cycle <= 3,
    ensures
        final(memory).wf(),
        cycle_matches(
            *old(cpu),
            *old(memory),
            *final(cpu),
            *final(memory),
            r,
            crate::templates::read::absolute_spec(*old(cpu), old(memory).contents(), op),
        ),
        final(cpu).current_cycle == old(cpu).current_cycle,
{
    proof {
        reveal(crate::templates::read::absolute_spec);
    }
    if cpu.current_cycle == 1 {
        let lo = fetch_from_pc(cpu, memory);
        cpu.effective_address = lo as u16;
        CycleResult::Continue
    } else if cpu.current_cycle == 2 {
        let hi = fetch_from_pc(cpu, memory);
        cpu.effective_address = (hi as u16) * 256 + cpu.effective_address % 256;
        CycleResult::Continue
    } else {
        let value = memory.load(cpu.effective_address);
        exec_read_op(cpu, op, value);
        CycleResult::Break
    }
}

/// The absolute indexed read template, older generation: 4 cycles, or 5 on
/// a page cross, identical in behavior to `read::absolute_indexed`. The
/// page-cross carry survives the cycle boundary in the internal flag set:
/// the instruction leaves the architectural status register's CARRY — and
/// every other architectural flag — unchanged while the address is fixed up.
pub fn read_absolute_indexed(
    cpu: &mut Cpu,
    memory: &mut MemoryBus,
    index: IndexRegister,
    op: ReadOp,
) -> (r: CycleResult)
    requires
        old(memory).wf(),
        1 <= old(cpu).current_cycle <= 4,
    ensures
        final(memory).wf(),
        cycle_matches(
            *old(cpu),
            *old(memory),
            *final(cpu),
            *final(memory),
            r,
            crate::templates::read::absolute_indexed_spec(
                *old(cpu),
                old(memory).contents(),
                index,
                op,
            ),
        ),
        final(cpu).current_cycle == old(cpu).current_cycle,
{
    proof {
        reveal(crate::templates::read::absolute_indexed_spec);
    }
    if cpu.current_cycle == 1 {
        let lo = fetch_from_pc(cpu, memory);
        cpu.effective_address = lo as u16;
        CycleResult::Continue
    } else if cpu.current_cycle == 2 {
        let hi = fetch_from_pc(cpu, memory);
        let idx: u8 = match index {
            IndexRegister::X => cpu.x_index,
            IndexRegister::Y => cpu.y_index,
        };
        let (lo, carry) = add_with_carry((cpu.effective_address % 256) as u8, idx, false);
        cpu.effective_address = (hi as u16) * 256 + lo as u16;
        cpu.internal_flags.effective_addr_carry = carry;
        CycleResult::Continue
    } else if cpu.current_cycle == 3 {
        let value = memory.load(cpu.effective_address);
        if cpu.internal_flags.effective_addr_carry {
            // blew through a page: fix up the address, pay one more cycle
            cpu.effective_address = cpu.effective_address.wrapping_add(0x100);
            CycleResult::Continue
        } else {
            exec_read_op(cpu, op, value);
            CycleResult::Break
        }
    } else {
        let value = memory.load(cpu.effective_address);
        exec_read_op(cpu, op, value);
        CycleResult::Break
    }
}

} // verus!
