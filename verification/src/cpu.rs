//! The CPU register file and the per-instruction execution scratch.
//!
//! Besides the architectural registers, the CPU carries scratch state that
//! survives from one cycle to the next within an instruction: the opcode
//! being executed, the cycle counter, the partially-built effective address,
//! the zero-page pointer of the indirect modes, and a private flag set for
//! state that must not show in the architectural status register.

use vstd::prelude::*;

use crate::dispatch::OpCode;
use crate::memory::BusOp;
use crate::memory::MemoryBus;

verus! {

/// The architectural status register, one field per bit-flag.
#[derive(Clone, Copy, PartialEq, Eq, Structural, Debug)]
pub struct StatusFlags {
    pub carry: bool,
    pub zero: bool,
    pub interrupt_disable: bool,
    pub decimal: bool,
    pub break_flag: bool,
    /// On the chip this bit always reads as set; this core gives it no
    /// meaning and never changes it.
    pub ignored: bool,
    pub overflow: bool,
    pub negative: bool,
}

impl StatusFlags {
    /// All flags clear.
    pub fn all_clear() -> (r: StatusFlags)
        ensures
            r == (StatusFlags {
                carry: false,
                zero: false,
                interrupt_disable: false,
                decimal: false,
                break_flag: false,
                ignored: false,
                overflow: false,
                negative: false,
            }),
    {
        StatusFlags {
            carry: false,
            zero: false,
            interrupt_disable: false,
            decimal: false,
            break_flag: false,
            ignored: false,
            overflow: false,
            negative: false,
        }
    }
}

/// Implementation state that must survive a cycle boundary without being
/// visible in the architectural status register.
#[derive(Clone, Copy, PartialEq, Eq, Structural, Debug)]
pub struct InternalFlags {
    /// Whether the low-byte add of an indexed addressing mode carried out of
    /// the page. The affected instructions leave the architectural CARRY flag
    /// unchanged, so this bit cannot live there.
    pub effective_addr_carry: bool,
}

/// The register file and per-instruction scratch of the 6502 core.
#[derive(Clone, Copy, PartialEq, Eq, Structural, Debug)]
pub struct Cpu {
    pub accumulator: u8,
    pub x_index: u8,
    pub y_index: u8,
    pub stack_pointer: u8,
    pub program_counter: u16,
    pub flags: StatusFlags,
    /// The opcode being executed; set on cycle 0 of each instruction.
    pub current_opcode: OpCode,
    /// Cycles elapsed since the opcode fetch, zero-based.
    pub current_cycle: u8,
    /// 16-bit scratch accumulating the target address across fetches.
    pub effective_address: u16,
    /// 8-bit scratch for the zero-page pointer of the indirect modes.
    pub pointer_address: u8,
    pub internal_flags: InternalFlags,
}

impl Cpu {
    /// A fresh CPU: all registers and scratch zeroed, no opcode in flight.
    pub fn new() -> (r: Cpu)
        ensures
            r == (Cpu {
                accumulator: 0u8,
                x_index: 0u8,
                y_index: 0u8,
                stack_pointer: 0u8,
                program_counter: 0u16,
                flags: StatusFlags {
                    carry: false,
                    zero: false,
                    interrupt_disable: false,
                    decimal: false,
                    break_flag: false,
                    ignored: false,
                    overflow: false,
                    negative: false,
                },
                current_opcode: OpCode::Unimplemented,
                current_cycle: 0u8,
                effective_address: 0u16,
                pointer_address: 0u8,
                internal_flags: InternalFlags { effective_addr_carry: false },
            }),
    {
        Cpu {
            accumulator: 0,
            x_index: 0,
            y_index: 0,
            stack_pointer: 0,
            program_counter: 0,
            flags: StatusFlags::all_clear(),
            current_opcode: OpCode::Unimplemented,
            current_cycle: 0,
            effective_address: 0,
            pointer_address: 0,
            internal_flags: InternalFlags { effective_addr_carry: false },
        }
    }
}

/// What a handler hands back each cycle: more cycles to come, or the
/// instruction is complete.
#[derive(Clone, Copy, PartialEq, Eq, Structural, Debug)]
pub enum CycleResult {
    Continue,
    Break,
}

/// The exact effect of one bus cycle: the CPU state it leaves behind, the one
/// bus transaction it performs, and whether it completes the instruction.
pub struct CycleSpec {
    pub cpu: Cpu,
    pub bus: BusOp,
    pub done: bool,
}

/// Memory contents after one bus transaction: a read leaves them unchanged, a
/// write updates one cell.
pub open spec fn cells_after(cells: Seq<u8>, bus: BusOp) -> Seq<u8> {
    match bus {
        BusOp::Read(_addr, _value) => cells,
        BusOp::Write(addr, value) => cells.update(addr as int, value),
    }
}

/// One cycle took the machine from (`pre_cpu`, `pre_mem`) to (`post_cpu`,
/// `post_mem`), performing exactly the transaction and the state change that
/// `s` describes, and reporting completion as `s.done` says.
pub open spec fn cycle_matches(
    pre_cpu: Cpu,
    pre_mem: MemoryBus,
    post_cpu: Cpu,
    post_mem: MemoryBus,
    r: CycleResult,
    s: CycleSpec,
) -> bool {
    &&& post_cpu == s.cpu
    &&& post_mem.contents() == cells_after(pre_mem.contents(), s.bus)
    &&& post_mem.trace() == pre_mem.trace().push(s.bus)
    &&& (r is Break) == s.done
}

/// A 16-bit increment that wraps at the top of the address space.
pub open spec fn wrap_inc16(v: u16) -> u16 {
    if v == 0xFFFF {
        0u16
    } else {
        (v + 1) as u16
    }
}

/// The same CPU with the program counter advanced by one.
pub open spec fn pc_advanced(cpu: Cpu) -> Cpu {
    Cpu { program_counter: wrap_inc16(cpu.program_counter), ..cpu }
}

/// The low byte of a 16-bit address.
pub open spec fn low_byte(addr: u16) -> u8 {
    (addr % 256) as u8
}

/// The address one page up, wrapping at the top of the address space: the
/// fix-up applied after an indexed low-byte add carried out of the page.
pub open spec fn page_fixup(addr: u16) -> u16 {
    if addr + 0x100 > 0xFFFF {
        (addr + 0x100 - 0x10000) as u16
    } else {
        (addr + 0x100) as u16
    }
}

/// Fetch the byte at `PC` over the bus and advance `PC` by one, wrapping at
/// the top of the address space.
pub fn fetch_from_pc(cpu: &mut Cpu, memory: &mut MemoryBus) -> (r: u8)
    requires
        old(memory).wf(),
    ensures
        final(memory).wf(),
        *final(cpu) == pc_advanced(*old(cpu)),
        r == old(memory).contents()[old(cpu).program_counter as int],
        final(memory).contents() == old(memory).contents(),
        final(memory).trace() == old(memory).trace().push(
            BusOp::Read(old(cpu).program_counter, r),
        ),
{
    let value = memory.load(cpu.program_counter);
    cpu.program_counter = cpu.program_counter.wrapping_add(1);
    value
}

} // verus!
