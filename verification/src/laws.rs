//! Laws of the core, stated and proved over the spec model.
//!
//! The flag lemmas restate the arithmetic of the instruction table in
//! architectural terms — what CARRY, ZERO, NEGATIVE and OVERFLOW mean for
//! every operand triple. The instruction lemmas run the per-cycle model to
//! completion from the opcode fetch and pin down, for each addressing mode,
//! the cycle count, the program-counter advance, and the address finally
//! accessed.

use vstd::prelude::*;

use crate::cpu::cells_after;
use crate::cpu::Cpu;
use crate::cpu::StatusFlags;
use crate::cpu::wrap_inc16;
use crate::dispatch::cycle_spec;
use crate::dispatch::instr_of_opcode;
use crate::dispatch::opcode_of_byte;
use crate::dispatch::Instr;
use crate::dispatch::Mode;
use crate::instructions::apply_read_op;
use crate::instructions::index_value;
use crate::instructions::IndexRegister;
use crate::instructions::ReadOp;
use crate::instructions::sbc_carry_out;
use crate::instructions::sbc_result;
use crate::instructions::wrap_inc8;
use crate::memory::BusOp;

verus! {

broadcast use crate::instructions::lemma_read_op_scratch_frame, crate::instructions::lemma_implied_op_scratch_frame;




/// ADC adds A, M and the incoming carry: the result byte and the outgoing
/// CARRY recompose the full 9-bit sum, OVERFLOW follows the signed rule,
/// ZERO and NEGATIVE follow the result byte; every other flag, the index
/// registers, the stack pointer and `PC` are untouched.
pub proof fn lemma_adc_flags(cpu: Cpu, m: u8)
    ensures
        ({
            let c = apply_read_op(cpu, ReadOp::Adc, m);
            let sum = cpu.accumulator + m + (if cpu.flags.carry {
                1int
            } else {
                0int
            });
            &&& c.accumulator + (if c.flags.carry {
                256int
            } else {
                0int
            }) == sum
            &&& c.flags.zero == (c.accumulator == 0)
            &&& c.flags.negative == (c.accumulator >= 0x80)
            &&& c.flags.overflow == (((cpu.accumulator >= 0x80) == (m >= 0x80)) && ((
            c.accumulator >= 0x80) != (cpu.accumulator >= 0x80)))
            &&& c.flags.decimal == cpu.flags.decimal
            &&& c.flags.interrupt_disable == cpu.flags.interrupt_disable
            &&& c.flags.break_flag == cpu.flags.break_flag
            &&& c.flags.ignored == cpu.flags.ignored
            &&& c.x_index == cpu.x_index
            &&& c.y_index == cpu.y_index
            &&& c.stack_pointer == cpu.stack_pointer
            &&& c.program_counter == cpu.program_counter
        }),
{
    reveal(crate::instructions::apply_read_op);

}

/// SBC computes the borrowing subtract A - M - (1 - C): the result byte is
/// that difference modulo 256, and CARRY is set exactly when no borrow
/// occurred, that is when A ≥ M + (1 - C).
pub proof fn lemma_sbc_subtracts(a: u8, m: u8, c: bool)
    ensures
        sbc_result(a, m, c) == (a - m - (if c {
            0int
        } else {
            1int
        })) % 256,
        sbc_carry_out(a, m, c) == (a - m - (if c {
            0int
        } else {
            1int
        }) >= 0),
{
}

/// SBC updates A and the flags like ADC of the complemented operand: the
/// result byte and CARRY follow the borrowing subtract, OVERFLOW follows
/// the signed rule on !M, ZERO and NEGATIVE follow the result byte; every
/// other flag and register is untouched.
pub proof fn lemma_sbc_flags(cpu: Cpu, m: u8)
    ensures
        ({
            let c = apply_read_op(cpu, ReadOp::Sbc, m);
            let borrow = if cpu.flags.carry {
                0int
            } else {
                1int
            };
            &&& c.accumulator == (cpu.accumulator - m - borrow) % 256
            &&& c.flags.carry == (cpu.accumulator - m - borrow >= 0)
            &&& c.flags.zero == (c.accumulator == 0)
            &&& c.flags.negative == (c.accumulator >= 0x80)
            &&& c.flags.overflow == (((cpu.accumulator >= 0x80) == (m < 0x80)) && ((
            c.accumulator >= 0x80) != (cpu.accumulator >= 0x80)))
            &&& c.flags.decimal == cpu.flags.decimal
            &&& c.flags.interrupt_disable == cpu.flags.interrupt_disable
            &&& c.flags.break_flag == cpu.flags.break_flag
            &&& c.flags.ignored == cpu.flags.ignored
            &&& c.x_index == cpu.x_index
            &&& c.y_index == cpu.y_index
            &&& c.stack_pointer == cpu.stack_pointer
            &&& c.program_counter == cpu.program_counter
        }),
{
    reveal(crate::instructions::apply_read_op);
    lemma_sbc_subtracts(cpu.accumulator, m, cpu.flags.carry);
}

/// CMP compares A with M and discards the difference: CARRY iff A ≥ M, ZERO
/// iff A = M, NEGATIVE from bit 7 of the 8-bit difference; A itself, the
/// other registers and the other flags are untouched.
pub proof fn lemma_cmp_flags(cpu: Cpu, m: u8)
    ensures
        ({
            let c = apply_read_op(cpu, ReadOp::Cmp, m);
            &&& c.flags.carry == (cpu.accumulator >= m)
            &&& c.flags.zero == (cpu.accumulator == m)
            &&& c.flags.negative == ((cpu.accumulator - m) % 256 >= 0x80)
            &&& c.accumulator == cpu.accumulator
            &&& c.flags.overflow == cpu.flags.overflow
            &&& c.flags.decimal == cpu.flags.decimal
            &&& c.flags.interrupt_disable == cpu.flags.interrupt_disable
            &&& c.flags.break_flag == cpu.flags.break_flag
            &&& c.flags.ignored == cpu.flags.ignored
            &&& c.x_index == cpu.x_index
            &&& c.y_index == cpu.y_index
            &&& c.stack_pointer == cpu.stack_pointer
            &&& c.program_counter == cpu.program_counter
        }),
{
    reveal(crate::instructions::apply_read_op);

    lemma_sbc_subtracts(cpu.accumulator, m, true);
}

/// AND, ORA and EOR combine A with M bitwise; ZERO and NEGATIVE follow the
/// result, everything else is untouched.
pub proof fn lemma_logic_flags(cpu: Cpu, op: ReadOp, m: u8)
    requires
        op == ReadOp::And || op == ReadOp::Ora || op == ReadOp::Eor,
    ensures
        ({
            let c = apply_read_op(cpu, op, m);
            &&& c.accumulator == (match op {
                ReadOp::And => cpu.accumulator & m,
                ReadOp::Ora => cpu.accumulator | m,
                _ => cpu.accumulator ^ m,
            })
            &&& c.flags.zero == (c.accumulator == 0)
            &&& c.flags.negative == (c.accumulator >= 0x80)
            &&& c.flags == (StatusFlags {
                zero: c.flags.zero,
                negative: c.flags.negative,
                ..cpu.flags
            })
            &&& c == (Cpu { accumulator: c.accumulator, flags: c.flags, ..cpu })
        }),
{
    reveal(crate::instructions::apply_read_op);

}

/// BIT tests A & M without writing a register: ZERO iff the conjunction is
/// 0, NEGATIVE is bit 7 of M, OVERFLOW is bit 6 of M; nothing else moves.
pub proof fn lemma_bit_flags(cpu: Cpu, m: u8)
    ensures
        ({
            let c = apply_read_op(cpu, ReadOp::Bit, m);
            &&& c.flags.zero == ((cpu.accumulator & m) == 0)
            &&& c.flags.negative == (m >= 0x80)
            &&& c.flags.overflow == ((m / 64) % 2 == 1)
            &&& c.flags == (StatusFlags {
                zero: c.flags.zero,
                negative: c.flags.negative,
                overflow: c.flags.overflow,
                ..cpu.flags
            })
            &&& c == (Cpu { flags: c.flags, ..cpu })
        }),
{
    reveal(crate::instructions::apply_read_op);

}

/// LDA, LDX and LDY write M to their register; ZERO and NEGATIVE follow M,
/// the other flags and registers are untouched.
pub proof fn lemma_load_flags(cpu: Cpu, op: ReadOp, m: u8)
    requires
        op == ReadOp::Lda || op == ReadOp::Ldx || op == ReadOp::Ldy,
    ensures
        ({
            let c = apply_read_op(cpu, op, m);
            &&& (op == ReadOp::Lda ==> c == (Cpu { accumulator: m, flags: c.flags, ..cpu }))
            &&& (op == ReadOp::Ldx ==> c == (Cpu { x_index: m, flags: c.flags, ..cpu }))
            &&& (op == ReadOp::Ldy ==> c == (Cpu { y_index: m, flags: c.flags, ..cpu }))
            &&& c.flags == (StatusFlags { zero: m == 0, negative: m >= 0x80, ..cpu.flags })
        }),
{
    reveal(crate::instructions::apply_read_op);

}

/// The machine after `n` cycles of `step_cycle`, starting from `cpu` and
/// memory contents `cells`: each cycle follows `cycle_spec`, then the cycle
/// counter is reset on completion and incremented otherwise.
pub open spec fn machine_after(cpu: Cpu, cells: Seq<u8>, n: nat) -> (Cpu, Seq<u8>)
    decreases n,
{
    if n == 0 {
        (cpu, cells)
    } else {
        let s = cycle_spec(cpu, cells);
        let stepped = Cpu {
            current_cycle: if s.done {
                0u8
            } else {
                wrap_inc8(cpu.current_cycle)
            },
            ..s.cpu
        };
        machine_after(stepped, cells_after(cells, s.bus), (n - 1) as nat)
    }
}

/// One unfolding of `machine_after`: the state after n + 1 cycles is the
/// state after n cycles from the stepped machine.
proof fn lemma_machine_after_succ(cpu: Cpu, cells: Seq<u8>, n: nat)
    ensures
        machine_after(cpu, cells, n + 1) == ({
            let s = cycle_spec(cpu, cells);
            let stepped = Cpu {
                current_cycle: if s.done {
                    0u8
                } else {
                    wrap_inc8(cpu.current_cycle)
                },
                ..s.cpu
            };
            machine_after(stepped, cells_after(cells, s.bus), n)
        }),
{
    reveal_with_fuel(machine_after, 2);
}

/// Peeling the last cycle instead: the state after n + 1 cycles is one step
/// taken from the state after n cycles.
proof fn lemma_machine_after_snoc(cpu: Cpu, cells: Seq<u8>, n: nat)
    ensures
        machine_after(cpu, cells, n + 1) == ({
            let c = machine_after(cpu, cells, n).0;
            let m = machine_after(cpu, cells, n).1;
            let s = cycle_spec(c, m);
            let stepped = Cpu {
                current_cycle: if s.done {
                    0u8
                } else {
                    wrap_inc8(c.current_cycle)
                },
                ..s.cpu
            };
            (stepped, cells_after(m, s.bus))
        }),
    decreases n,
{
    if n == 0 {
        reveal_with_fuel(machine_after, 2);
    } else {
        let s0 = cycle_spec(cpu, cells);
        let first = Cpu {
            current_cycle: if s0.done {
                0u8
            } else {
                wrap_inc8(cpu.current_cycle)
            },
            ..s0.cpu
        };
        lemma_machine_after_succ(cpu, cells, n);
        lemma_machine_after_succ(cpu, cells, (n - 1) as nat);
        lemma_machine_after_snoc(first, cells_after(cells, s0.bus), (n - 1) as nat);
    }
}

/// A read operation reads only the accumulator and the flags: two CPUs that
/// agree there produce the same registers and flags, whatever their
/// addressing scratch.
proof fn lemma_apply_read_op_frame(c1: Cpu, c2: Cpu, op: ReadOp, m: u8)
    requires
        c1.accumulator == c2.accumulator,
        c1.flags == c2.flags,
        c1.x_index == c2.x_index,
        c1.y_index == c2.y_index,
    ensures
        ({
            let a = apply_read_op(c1, op, m);
            let b = apply_read_op(c2, op, m);
            &&& a.accumulator == b.accumulator
            &&& a.flags == b.flags
            &&& a.x_index == b.x_index
            &&& a.y_index == b.y_index
        }),
{
    reveal(crate::instructions::apply_read_op);

}

/// What `cycle_spec` does on the opcode-fetch cycle.
proof fn lemma_cycle_spec_fetch(cpu: Cpu, cells: Seq<u8>)
    requires
        cpu.current_cycle == 0,
    ensures
        cycle_spec(cpu, cells) == (crate::cpu::CycleSpec {
            cpu: Cpu {
                current_opcode: opcode_of_byte(cells[cpu.program_counter as int]),
                ..crate::cpu::pc_advanced(cpu)
            },
            bus: BusOp::Read(cpu.program_counter, cells[cpu.program_counter as int]),
            done: false,
        }),
{
    reveal(cycle_spec);
}

/// Mid-instruction, `cycle_spec` of a read opcode is its mode's template.
proof fn lemma_cycle_spec_read(cpu: Cpu, cells: Seq<u8>, op: ReadOp, mode: Mode)
    requires
        cpu.current_cycle != 0,
        instr_of_opcode(cpu.current_opcode) == Instr::Read(op, mode),
    ensures
        cycle_spec(cpu, cells) == (match mode {
            Mode::Immediate => crate::templates::read::immediate_spec(cpu, cells, op),
            Mode::ZeroPage => crate::templates::read::zeropage_spec(cpu, cells, op),
            Mode::ZeroPageX => crate::templates::read::zeropage_indexed_spec(
                cpu,
                cells,
                IndexRegister::X,
                op,
            ),
            Mode::ZeroPageY => crate::templates::read::zeropage_indexed_spec(
                cpu,
                cells,
                IndexRegister::Y,
                op,
            ),
            Mode::Absolute => crate::templates::read::absolute_spec(cpu, cells, op),
            Mode::AbsoluteX => crate::templates::read::absolute_indexed_spec(
                cpu,
                cells,
                IndexRegister::X,
                op,
            ),
            Mode::AbsoluteY => crate::templates::read::absolute_indexed_spec(
                cpu,
                cells,
                IndexRegister::Y,
                op,
            ),
            Mode::IndirectX => crate::templates::read::indirect_x_spec(cpu, cells, op),
            Mode::IndirectY => crate::templates::read::indirect_y_spec(cpu, cells, op),
        }),
{
    reveal(cycle_spec);
}

/// Mid-instruction, `cycle_spec` of a store opcode is its mode's template.
proof fn lemma_cycle_spec_store(cpu: Cpu, cells: Seq<u8>, op: crate::instructions::StoreOp, mode: Mode)
    requires
        cpu.current_cycle != 0,
        instr_of_opcode(cpu.current_opcode) == Instr::Store(op, mode),
        mode != Mode::Immediate,
    ensures
        cycle_spec(cpu, cells) == (match mode {
            Mode::Immediate => cycle_spec(cpu, cells),
            Mode::ZeroPage => crate::templates::store::zeropage_spec(cpu, cells, op),
            Mode::ZeroPageX => crate::templates::store::zeropage_indexed_spec(
                cpu,
                cells,
                IndexRegister::X,
                op,
            ),
            Mode::ZeroPageY => crate::templates::store::zeropage_indexed_spec(
                cpu,
                cells,
                IndexRegister::Y,
                op,
            ),
            Mode::Absolute => crate::templates::store::absolute_spec(cpu, cells, op),
            Mode::AbsoluteX => crate::templates::store::absolute_indexed_spec(
                cpu,
                cells,
                IndexRegister::X,
                op,
            ),
            Mode::AbsoluteY => crate::templates::store::absolute_indexed_spec(
                cpu,
                cells,
                IndexRegister::Y,
                op,
            ),
            Mode::IndirectX => crate::templates::store::indirect_x_spec(cpu, cells, op),
            Mode::IndirectY => crate::templates::store::indirect_y_spec(cpu, cells, op),
        }),
{
    reveal(cycle_spec);
}

/// Mid-instruction, `cycle_spec` of a one-byte opcode is the implied
/// template.
proof fn lemma_cycle_spec_implied(cpu: Cpu, cells: Seq<u8>, op: crate::instructions::ImpliedOp)
    requires
        cpu.current_cycle != 0,
        instr_of_opcode(cpu.current_opcode) == Instr::Implied(op),
    ensures
        cycle_spec(cpu, cells) == crate::templates::implied_spec(cpu, cells, op),
{
    reveal(cycle_spec);
}

/// An absolute-mode read instruction, run from the opcode fetch: it takes
/// exactly 4 cycles (the counter passes 1, 2, 3 and returns to 0), advances
/// `PC` by its 3 bytes, leaves memory unchanged, and applies the operation
/// to the byte at the little-endian operand address.
#[verifier::rlimit(100)]
pub proof fn lemma_read_absolute_instruction(cpu: Cpu, cells: Seq<u8>, op: ReadOp)
    requires
        cpu.current_cycle == 0,
        instr_of_opcode(opcode_of_byte(cells[cpu.program_counter as int])) == Instr::Read(
            op,
            Mode::Absolute,
        ),
    ensures
        ({
            let pc = cpu.program_counter;
            let lo = cells[wrap_inc16(pc) as int];
            let hi = cells[wrap_inc16(wrap_inc16(pc)) as int];
            let target = (hi * 256 + lo) as u16;
            let end = machine_after(cpu, cells, 4).0;
            let applied = apply_read_op(cpu, op, cells[target as int]);
            &&& machine_after(cpu, cells, 1).0.current_cycle == 1
            &&& machine_after(cpu, cells, 2).0.current_cycle == 2
            &&& machine_after(cpu, cells, 3).0.current_cycle == 3
            &&& end.current_cycle == 0
            &&& end.program_counter == wrap_inc16(wrap_inc16(wrap_inc16(pc)))
            &&& machine_after(cpu, cells, 4).1 == cells
            &&& end.accumulator == applied.accumulator
            &&& end.x_index == applied.x_index
            &&& end.y_index == applied.y_index
            &&& end.flags == applied.flags
            &&& end.stack_pointer == cpu.stack_pointer
        }),
{
    reveal(crate::templates::read::absolute_spec);
    let pc = cpu.program_counter;
    let b = cells[pc as int];
    let lo = cells[wrap_inc16(pc) as int];
    let hi = cells[wrap_inc16(wrap_inc16(pc)) as int];
    let target = (hi * 256 + lo) as u16;
    let v = cells[target as int];
    let c1 = Cpu {
        current_opcode: opcode_of_byte(b),
        current_cycle: 1u8,
        program_counter: wrap_inc16(pc),
        ..cpu
    };
    let c2 = Cpu {
        effective_address: lo as u16,
        current_cycle: 2u8,
        program_counter: wrap_inc16(wrap_inc16(pc)),
        ..c1
    };
    let c3 = Cpu {
        effective_address: target,
        current_cycle: 3u8,
        program_counter: wrap_inc16(wrap_inc16(wrap_inc16(pc))),
        ..c2
    };
    let end = Cpu { current_cycle: 0u8, ..apply_read_op(c3, op, v) };
    lemma_cycle_spec_fetch(cpu, cells);
    lemma_cycle_spec_read(c1, cells, op, Mode::Absolute);
    lemma_cycle_spec_read(c2, cells, op, Mode::Absolute);
    lemma_cycle_spec_read(c3, cells, op, Mode::Absolute);
    lemma_machine_after_succ(cpu, cells, 0);
    assert(machine_after(cpu, cells, 1) == (c1, cells)) by {
        reveal_with_fuel(machine_after, 1);
    }
    lemma_machine_after_snoc(cpu, cells, 1);
    assert(machine_after(cpu, cells, 2) == (c2, cells));
    lemma_machine_after_snoc(cpu, cells, 2);
    assert(machine_after(cpu, cells, 3) == (c3, cells));
    lemma_machine_after_snoc(cpu, cells, 3);
    assert(machine_after(cpu, cells, 4) == (end, cells));
    lemma_apply_read_op_frame(c3, cpu, op, v);
}


/// A one-byte instruction reads only registers and flags: two CPUs that
/// agree there produce the same registers and flags.
proof fn lemma_apply_implied_op_frame(c1: Cpu, c2: Cpu, op: crate::instructions::ImpliedOp)
    requires
        c1.accumulator == c2.accumulator,
        c1.flags == c2.flags,
        c1.x_index == c2.x_index,
        c1.y_index == c2.y_index,
        c1.stack_pointer == c2.stack_pointer,
    ensures
        ({
            let a = crate::instructions::apply_implied_op(c1, op);
            let b = crate::instructions::apply_implied_op(c2, op);
            &&& a.accumulator == b.accumulator
            &&& a.flags == b.flags
            &&& a.x_index == b.x_index
            &&& a.y_index == b.y_index
            &&& a.stack_pointer == b.stack_pointer
        }),
{
    reveal(crate::instructions::apply_implied_op);

}

/// An immediate-mode read instruction, run from the opcode fetch: exactly 2
/// cycles, `PC` advanced by its 2 bytes, memory unchanged, the operation
/// applied to the byte right after the opcode.
#[verifier::rlimit(100)]
pub proof fn lemma_read_immediate_instruction(cpu: Cpu, cells: Seq<u8>, op: ReadOp)
    requires
        cpu.current_cycle == 0,
        instr_of_opcode(opcode_of_byte(cells[cpu.program_counter as int])) == Instr::Read(
            op,
            Mode::Immediate,
        ),
    ensures
        ({
            let pc = cpu.program_counter;
            let end = machine_after(cpu, cells, 2).0;
            let applied = apply_read_op(cpu, op, cells[wrap_inc16(pc) as int]);
            &&& machine_after(cpu, cells, 1).0.current_cycle == 1
            &&& end.current_cycle == 0
            &&& end.program_counter == wrap_inc16(wrap_inc16(pc))
            &&& machine_after(cpu, cells, 2).1 == cells
            &&& end.accumulator == applied.accumulator
            &&& end.x_index == applied.x_index
            &&& end.y_index == applied.y_index
            &&& end.flags == applied.flags
            &&& end.stack_pointer == cpu.stack_pointer
        }),
{
    reveal(crate::templates::read::immediate_spec);
    let pc = cpu.program_counter;
    let b = cells[pc as int];
    let v = cells[wrap_inc16(pc) as int];
    let c1 = Cpu {
        current_opcode: opcode_of_byte(b),
        current_cycle: 1u8,
        program_counter: wrap_inc16(pc),
        ..cpu
    };
    let end = Cpu {
        current_cycle: 0u8,
        ..apply_read_op(crate::cpu::pc_advanced(c1), op, v)
    };
    lemma_cycle_spec_fetch(cpu, cells);
    lemma_cycle_spec_read(c1, cells, op, Mode::Immediate);
    lemma_machine_after_succ(cpu, cells, 0);
    assert(machine_after(cpu, cells, 1) == (c1, cells)) by {
        reveal_with_fuel(machine_after, 1);
    }
    lemma_machine_after_snoc(cpu, cells, 1);
    assert(machine_after(cpu, cells, 2) == (end, cells));
    lemma_apply_read_op_frame(crate::cpu::pc_advanced(c1), cpu, op, v);
}

/// A zero-page read instruction, run from the opcode fetch: exactly 3
/// cycles, `PC` advanced by its 2 bytes, memory unchanged, the operation
/// applied to the byte at the zero-page operand address.
#[verifier::rlimit(100)]
pub proof fn lemma_read_zeropage_instruction(cpu: Cpu, cells: Seq<u8>, op: ReadOp)
    requires
        cpu.current_cycle == 0,
        instr_of_opcode(opcode_of_byte(cells[cpu.program_counter as int])) == Instr::Read(
            op,
            Mode::ZeroPage,
        ),
    ensures
        ({
            let pc = cpu.program_counter;
            let target = cells[wrap_inc16(pc) as int] as u16;
            let end = machine_after(cpu, cells, 3).0;
            let applied = apply_read_op(cpu, op, cells[target as int]);
            &&& machine_after(cpu, cells, 1).0.current_cycle == 1
            &&& machine_after(cpu, cells, 2).0.current_cycle == 2
            &&& end.current_cycle == 0
            &&& end.program_counter == wrap_inc16(wrap_inc16(pc))
            &&& machine_after(cpu, cells, 3).1 == cells
            &&& target <= 0xFF
            &&& end.accumulator == applied.accumulator
            &&& end.x_index == applied.x_index
            &&& end.y_index == applied.y_index
            &&& end.flags == applied.flags
            &&& end.stack_pointer == cpu.stack_pointer
        }),
{
    reveal(crate::templates::read::zeropage_spec);
    let pc = cpu.program_counter;
    let b = cells[pc as int];
    let target = cells[wrap_inc16(pc) as int] as u16;
    let v = cells[target as int];
    let c1 = Cpu {
        current_opcode: opcode_of_byte(b),
        current_cycle: 1u8,
        program_counter: wrap_inc16(pc),
        ..cpu
    };
    let c2 = Cpu {
        effective_address: target,
        current_cycle: 2u8,
        program_counter: wrap_inc16(wrap_inc16(pc)),
        ..c1
    };
    let end = Cpu { current_cycle: 0u8, ..apply_read_op(c2, op, v) };
    lemma_cycle_spec_fetch(cpu, cells);
    lemma_cycle_spec_read(c1, cells, op, Mode::ZeroPage);
    lemma_cycle_spec_read(c2, cells, op, Mode::ZeroPage);
    lemma_machine_after_succ(cpu, cells, 0);
    assert(machine_after(cpu, cells, 1) == (c1, cells)) by {
        reveal_with_fuel(machine_after, 1);
    }
    lemma_machine_after_snoc(cpu, cells, 1);
    assert(machine_after(cpu, cells, 2) == (c2, cells));
    lemma_machine_after_snoc(cpu, cells, 2);
    assert(machine_after(cpu, cells, 3) == (end, cells));
    lemma_apply_read_op_frame(c2, cpu, op, v);
}

/// A zero-page indexed read instruction, run from the opcode fetch: exactly
/// 4 cycles, `PC` advanced by its 2 bytes, memory unchanged, the operation
/// applied to the byte at (base + index) mod 256 — the effective address
/// never leaves the zero page, however large the sum.
#[verifier::rlimit(100)]
pub proof fn lemma_read_zeropage_indexed_instruction(
    cpu: Cpu,
    cells: Seq<u8>,
    index: IndexRegister,
    op: ReadOp,
)
    requires
        cpu.current_cycle == 0,
        instr_of_opcode(opcode_of_byte(cells[cpu.program_counter as int])) == Instr::Read(
            op,
            if index == IndexRegister::X {
                Mode::ZeroPageX
            } else {
                Mode::ZeroPageY
            },
        ),
    ensures
        ({
            let pc = cpu.program_counter;
            let base = cells[wrap_inc16(pc) as int];
            let target = crate::instructions::wrap_add8(base, index_value(cpu, index)) as u16;
            let end = machine_after(cpu, cells, 4).0;
            let applied = apply_read_op(cpu, op, cells[target as int]);
            &&& machine_after(cpu, cells, 1).0.current_cycle == 1
            &&& machine_after(cpu, cells, 2).0.current_cycle == 2
            &&& machine_after(cpu, cells, 3).0.current_cycle == 3
            &&& end.current_cycle == 0
            &&& end.program_counter == wrap_inc16(wrap_inc16(pc))
            &&& machine_after(cpu, cells, 4).1 == cells
            &&& target <= 0xFF
            &&& end.accumulator == applied.accumulator
            &&& end.x_index == applied.x_index
            &&& end.y_index == applied.y_index
            &&& end.flags == applied.flags
            &&& end.stack_pointer == cpu.stack_pointer
        }),
{
    reveal(crate::templates::read::zeropage_indexed_spec);
    let pc = cpu.program_counter;
    let b = cells[pc as int];
    let mode = if index == IndexRegister::X {
        Mode::ZeroPageX
    } else {
        Mode::ZeroPageY
    };
    let base = cells[wrap_inc16(pc) as int];
    let target = crate::instructions::wrap_add8(base, index_value(cpu, index)) as u16;
    let v = cells[target as int];
    let c1 = Cpu {
        current_opcode: opcode_of_byte(b),
        current_cycle: 1u8,
        program_counter: wrap_inc16(pc),
        ..cpu
    };
    let c2 = Cpu {
        effective_address: base as u16,
        current_cycle: 2u8,
        program_counter: wrap_inc16(wrap_inc16(pc)),
        ..c1
    };
    let c3 = Cpu { effective_address: target, current_cycle: 3u8, ..c2 };
    let end = Cpu { current_cycle: 0u8, ..apply_read_op(c3, op, v) };
    lemma_cycle_spec_fetch(cpu, cells);
    lemma_cycle_spec_read(c1, cells, op, mode);
    lemma_cycle_spec_read(c2, cells, op, mode);
    lemma_cycle_spec_read(c3, cells, op, mode);
    lemma_machine_after_succ(cpu, cells, 0);
    assert(machine_after(cpu, cells, 1) == (c1, cells)) by {
        reveal_with_fuel(machine_after, 1);
    }
    lemma_machine_after_snoc(cpu, cells, 1);
    assert(machine_after(cpu, cells, 2) == (c2, cells));
    lemma_machine_after_snoc(cpu, cells, 2);
    assert(machine_after(cpu, cells, 3) == (c3, cells));
    lemma_machine_after_snoc(cpu, cells, 3);
    assert(machine_after(cpu, cells, 4) == (end, cells));
    lemma_apply_read_op_frame(c3, cpu, op, v);
}

/// A one-byte instruction, run from the opcode fetch: exactly 2 cycles,
/// `PC` advanced by its single byte, memory unchanged, the effect applied
/// to registers and flags.
#[verifier::rlimit(100)]
pub proof fn lemma_implied_instruction(
    cpu: Cpu,
    cells: Seq<u8>,
    op: crate::instructions::ImpliedOp,
)
    requires
        cpu.current_cycle == 0,
        instr_of_opcode(opcode_of_byte(cells[cpu.program_counter as int])) == Instr::Implied(op),
    ensures
        ({
            let pc = cpu.program_counter;
            let end = machine_after(cpu, cells, 2).0;
            let applied = crate::instructions::apply_implied_op(cpu, op);
            &&& machine_after(cpu, cells, 1).0.current_cycle == 1
            &&& end.current_cycle == 0
            &&& end.program_counter == wrap_inc16(pc)
            &&& machine_after(cpu, cells, 2).1 == cells
            &&& end.accumulator == applied.accumulator
            &&& end.x_index == applied.x_index
            &&& end.y_index == applied.y_index
            &&& end.flags == applied.flags
            &&& end.stack_pointer == applied.stack_pointer
        }),
{
    reveal(crate::templates::implied_spec);
    let pc = cpu.program_counter;
    let b = cells[pc as int];
    let c1 = Cpu {
        current_opcode: opcode_of_byte(b),
        current_cycle: 1u8,
        program_counter: wrap_inc16(pc),
        ..cpu
    };
    let end = Cpu { current_cycle: 0u8, ..crate::instructions::apply_implied_op(c1, op) };
    lemma_cycle_spec_fetch(cpu, cells);
    lemma_cycle_spec_implied(c1, cells, op);
    lemma_machine_after_succ(cpu, cells, 0);
    assert(machine_after(cpu, cells, 1) == (c1, cells)) by {
        reveal_with_fuel(machine_after, 1);
    }
    lemma_machine_after_snoc(cpu, cells, 1);
    assert(machine_after(cpu, cells, 2) == (end, cells));
    lemma_apply_implied_op_frame(c1, cpu, op);
}


/// The addressing cycles of an absolute indexed read, run from the opcode
/// fetch: the states after 1 to 3 cycles.
#[verifier::rlimit(100)]
proof fn lemma_read_absolute_indexed_addressing(
    cpu: Cpu,
    cells: Seq<u8>,
    index: IndexRegister,
    op: ReadOp,
)
    requires
        cpu.current_cycle == 0,
        instr_of_opcode(opcode_of_byte(cells[cpu.program_counter as int])) == Instr::Read(
            op,
            if index == IndexRegister::X {
                Mode::AbsoluteX
            } else {
                Mode::AbsoluteY
            },
        ),
    ensures
        ({
            let pc = cpu.program_counter;
            let b = cells[pc as int];
            let lo = cells[wrap_inc16(pc) as int];
            let hi = cells[wrap_inc16(wrap_inc16(pc)) as int];
            let idx = index_value(cpu, index);
            let crossed = lo + idx >= 256;
            let ea3 = (hi * 256 + crate::instructions::adc_result(lo, idx, false)) as u16;
            let c1 = Cpu {
                current_opcode: opcode_of_byte(b),
                current_cycle: 1u8,
                program_counter: wrap_inc16(pc),
                ..cpu
            };
            let c2 = Cpu {
                effective_address: lo as u16,
                current_cycle: 2u8,
                program_counter: wrap_inc16(wrap_inc16(pc)),
                ..c1
            };
            let c3 = Cpu {
                effective_address: ea3,
                internal_flags: crate::cpu::InternalFlags { effective_addr_carry: crossed },
                current_cycle: 3u8,
                program_counter: wrap_inc16(wrap_inc16(wrap_inc16(pc))),
                ..c2
            };
            &&& machine_after(cpu, cells, 1) == (c1, cells)
            &&& machine_after(cpu, cells, 2) == (c2, cells)
            &&& machine_after(cpu, cells, 3) == (c3, cells)
        }),
{
    let pc = cpu.program_counter;
    let b = cells[pc as int];
    let mode = if index == IndexRegister::X {
        Mode::AbsoluteX
    } else {
        Mode::AbsoluteY
    };
    let lo = cells[wrap_inc16(pc) as int];
    let hi = cells[wrap_inc16(wrap_inc16(pc)) as int];
    let idx = index_value(cpu, index);
    let crossed = lo + idx >= 256;
    let ea3 = (hi * 256 + crate::instructions::adc_result(lo, idx, false)) as u16;
    let c1 = Cpu {
        current_opcode: opcode_of_byte(b),
        current_cycle: 1u8,
        program_counter: wrap_inc16(pc),
        ..cpu
    };
    let c2 = Cpu {
        effective_address: lo as u16,
        current_cycle: 2u8,
        program_counter: wrap_inc16(wrap_inc16(pc)),
        ..c1
    };
    let c3 = Cpu {
        effective_address: ea3,
        internal_flags: crate::cpu::InternalFlags { effective_addr_carry: crossed },
        current_cycle: 3u8,
        program_counter: wrap_inc16(wrap_inc16(wrap_inc16(pc))),
        ..c2
    };
    assert(machine_after(cpu, cells, 1) == (c1, cells)) by {
        lemma_machine_after_succ(cpu, cells, 0);
        lemma_cycle_spec_fetch(cpu, cells);
        reveal_with_fuel(machine_after, 1);
    }
    assert(machine_after(cpu, cells, 2) == (c2, cells)) by {
        lemma_machine_after_snoc(cpu, cells, 1);
        lemma_cycle_spec_read(c1, cells, op, mode);
        reveal(crate::templates::read::absolute_indexed_spec);
    }
    assert(machine_after(cpu, cells, 3) == (c3, cells)) by {
        lemma_machine_after_snoc(cpu, cells, 2);
        lemma_cycle_spec_read(c2, cells, op, mode);
        reveal(crate::templates::read::absolute_indexed_spec);
    }
}

/// An absolute indexed read instruction, run from the opcode fetch: 4
/// cycles without a page cross, 5 with one; `PC` advanced by its 3 bytes,
/// memory unchanged, and the operation applied to the byte at
/// (base + index) mod 2^16 — the page-cross fix-up lands on exactly the
/// address the 16-bit add would give.
#[verifier::rlimit(100)]
pub proof fn lemma_read_absolute_indexed_instruction(
    cpu: Cpu,
    cells: Seq<u8>,
    index: IndexRegister,
    op: ReadOp,
)
    requires
        cpu.current_cycle == 0,
        instr_of_opcode(opcode_of_byte(cells[cpu.program_counter as int])) == Instr::Read(
            op,
            if index == IndexRegister::X {
                Mode::AbsoluteX
            } else {
                Mode::AbsoluteY
            },
        ),
    ensures
        ({
            let pc = cpu.program_counter;
            let lo = cells[wrap_inc16(pc) as int];
            let hi = cells[wrap_inc16(wrap_inc16(pc)) as int];
            let idx = index_value(cpu, index);
            let crossed = lo + idx >= 256;
            let n = if crossed {
                5nat
            } else {
                4nat
            };
            let target = (((hi * 256 + lo) + idx) % 0x10000) as u16;
            let end = machine_after(cpu, cells, n).0;
            let applied = apply_read_op(cpu, op, cells[target as int]);
            &&& machine_after(cpu, cells, 1).0.current_cycle == 1
            &&& machine_after(cpu, cells, 2).0.current_cycle == 2
            &&& machine_after(cpu, cells, 3).0.current_cycle == 3
            &&& (crossed ==> machine_after(cpu, cells, 4).0.current_cycle == 4)
            &&& end.current_cycle == 0
            &&& end.program_counter == wrap_inc16(wrap_inc16(wrap_inc16(pc)))
            &&& machine_after(cpu, cells, n).1 == cells
            &&& end.accumulator == applied.accumulator
            &&& end.x_index == applied.x_index
            &&& end.y_index == applied.y_index
            &&& end.flags == applied.flags
            &&& end.stack_pointer == cpu.stack_pointer
        }),
{
    let pc = cpu.program_counter;
    let mode = if index == IndexRegister::X {
        Mode::AbsoluteX
    } else {
        Mode::AbsoluteY
    };
    let lo = cells[wrap_inc16(pc) as int];
    let hi = cells[wrap_inc16(wrap_inc16(pc)) as int];
    let idx = index_value(cpu, index);
    let crossed = lo + idx >= 256;
    let target = (((hi * 256 + lo) + idx) % 0x10000) as u16;
    let ea3 = (hi * 256 + crate::instructions::adc_result(lo, idx, false)) as u16;
    lemma_read_absolute_indexed_addressing(cpu, cells, index, op);
    let c3 = machine_after(cpu, cells, 3).0;
    if crossed {
        let c4 = Cpu { effective_address: target, current_cycle: 4u8, ..c3 };
        let v = cells[target as int];
        let end = Cpu { current_cycle: 0u8, ..apply_read_op(c4, op, v) };
        assert(machine_after(cpu, cells, 4) == (c4, cells)) by {
            lemma_machine_after_snoc(cpu, cells, 3);
            lemma_cycle_spec_read(c3, cells, op, mode);
            reveal(crate::templates::read::absolute_indexed_spec);
            assert(crate::instructions::adc_carry_out(lo, idx, false) == crossed);
            assert(crate::instructions::adc_result(lo, idx, false) == lo + idx - 256);
            assert(target == crate::cpu::page_fixup(ea3));
        }
        assert(machine_after(cpu, cells, 5) == (end, cells)) by {
            lemma_machine_after_snoc(cpu, cells, 4);
            lemma_cycle_spec_read(c4, cells, op, mode);
            reveal(crate::templates::read::absolute_indexed_spec);
        }
        lemma_apply_read_op_frame(c4, cpu, op, v);
    } else {
        let v = cells[target as int];
        let end = Cpu { current_cycle: 0u8, ..apply_read_op(c3, op, v) };
        assert(machine_after(cpu, cells, 4) == (end, cells)) by {
            lemma_machine_after_snoc(cpu, cells, 3);
            lemma_cycle_spec_read(c3, cells, op, mode);
            reveal(crate::templates::read::absolute_indexed_spec);
            assert(crate::instructions::adc_carry_out(lo, idx, false) == crossed);
            assert(crate::instructions::adc_result(lo, idx, false) == lo + idx);
            assert(target == ea3);
        }
        lemma_apply_read_op_frame(c3, cpu, op, v);
    }
}

/// An indirect,X read instruction, run from the opcode fetch: exactly 6
/// cycles, `PC` advanced by its 2 bytes, memory unchanged, and the operation
/// applied to the byte whose address is read little-endian at the indexed
/// zero-page pointer — both pointer bytes read with zero-page wrap-around,
/// so the high byte of pointer 0xFF comes from address 0x00.
#[verifier::rlimit(100)]
pub proof fn lemma_read_indirect_x_instruction(cpu: Cpu, cells: Seq<u8>, op: ReadOp)
    requires
        cpu.current_cycle == 0,
        instr_of_opcode(opcode_of_byte(cells[cpu.program_counter as int])) == Instr::Read(
            op,
            Mode::IndirectX,
        ),
    ensures
        ({
            let pc = cpu.program_counter;
            let p = crate::instructions::wrap_add8(
                cells[wrap_inc16(pc) as int],
                cpu.x_index,
            );
            let lo = cells[p as int];
            let hi = cells[crate::instructions::wrap_inc8(p) as int];
            let target = (hi * 256 + lo) as u16;
            let end = machine_after(cpu, cells, 6).0;
            let applied = apply_read_op(cpu, op, cells[target as int]);
            &&& machine_after(cpu, cells, 1).0.current_cycle == 1
            &&& machine_after(cpu, cells, 2).0.current_cycle == 2
            &&& machine_after(cpu, cells, 3).0.current_cycle == 3
            &&& machine_after(cpu, cells, 4).0.current_cycle == 4
            &&& machine_after(cpu, cells, 5).0.current_cycle == 5
            &&& end.current_cycle == 0
            &&& end.program_counter == wrap_inc16(wrap_inc16(pc))
            &&& machine_after(cpu, cells, 6).1 == cells
            &&& end.accumulator == applied.accumulator
            &&& end.x_index == applied.x_index
            &&& end.y_index == applied.y_index
            &&& end.flags == applied.flags
            &&& end.stack_pointer == cpu.stack_pointer
        }),
{
    reveal(crate::templates::read::indirect_x_spec);
    let pc = cpu.program_counter;
    let b = cells[pc as int];
    let p0 = cells[wrap_inc16(pc) as int];
    let p = crate::instructions::wrap_add8(p0, cpu.x_index);
    let lo = cells[p as int];
    let hi = cells[crate::instructions::wrap_inc8(p) as int];
    let target = (hi * 256 + lo) as u16;
    let v = cells[target as int];
    let c1 = Cpu {
        current_opcode: opcode_of_byte(b),
        current_cycle: 1u8,
        program_counter: wrap_inc16(pc),
        ..cpu
    };
    let c2 = Cpu {
        pointer_address: p0,
        current_cycle: 2u8,
        program_counter: wrap_inc16(wrap_inc16(pc)),
        ..c1
    };
    let c3 = Cpu { pointer_address: p, current_cycle: 3u8, ..c2 };
    let c4 = Cpu { effective_address: lo as u16, current_cycle: 4u8, ..c3 };
    let c5 = Cpu { effective_address: target, current_cycle: 5u8, ..c4 };
    let end = Cpu { current_cycle: 0u8, ..apply_read_op(c5, op, v) };
    lemma_cycle_spec_fetch(cpu, cells);
    lemma_cycle_spec_read(c1, cells, op, Mode::IndirectX);
    lemma_cycle_spec_read(c2, cells, op, Mode::IndirectX);
    lemma_cycle_spec_read(c3, cells, op, Mode::IndirectX);
    lemma_cycle_spec_read(c4, cells, op, Mode::IndirectX);
    lemma_cycle_spec_read(c5, cells, op, Mode::IndirectX);
    lemma_machine_after_succ(cpu, cells, 0);
    assert(machine_after(cpu, cells, 1) == (c1, cells)) by {
        reveal_with_fuel(machine_after, 1);
    }
    lemma_machine_after_snoc(cpu, cells, 1);
    assert(machine_after(cpu, cells, 2) == (c2, cells));
    lemma_machine_after_snoc(cpu, cells, 2);
    assert(machine_after(cpu, cells, 3) == (c3, cells));
    lemma_machine_after_snoc(cpu, cells, 3);
    assert(machine_after(cpu, cells, 4) == (c4, cells));
    lemma_machine_after_snoc(cpu, cells, 4);
    assert(machine_after(cpu, cells, 5) == (c5, cells));
    lemma_machine_after_snoc(cpu, cells, 5);
    assert(machine_after(cpu, cells, 6) == (end, cells));
    lemma_apply_read_op_frame(c5, cpu, op, v);
}

/// An indirect,Y read instruction, run from the opcode fetch: 5 cycles
/// without a page cross, 6 with one; `PC` advanced by its 2 bytes, memory
/// unchanged, and the operation applied to the byte at
/// (pointer target + Y) mod 2^16, the pointer read little-endian in the
/// zero page with wrap-around at 0xFF.
#[verifier::rlimit(100)]
pub proof fn lemma_read_indirect_y_instruction(cpu: Cpu, cells: Seq<u8>, op: ReadOp)
    requires
        cpu.current_cycle == 0,
        instr_of_opcode(opcode_of_byte(cells[cpu.program_counter as int])) == Instr::Read(
            op,
            Mode::IndirectY,
        ),
    ensures
        ({
            let pc = cpu.program_counter;
            let p = cells[wrap_inc16(pc) as int];
            let lo = cells[p as int];
            let hi = cells[crate::instructions::wrap_inc8(p) as int];
            let crossed = lo + cpu.y_index >= 256;
            let n = if crossed {
                6nat
            } else {
                5nat
            };
            let target = (((hi * 256 + lo) + cpu.y_index) % 0x10000) as u16;
            let end = machine_after(cpu, cells, n).0;
            let applied = apply_read_op(cpu, op, cells[target as int]);
            &&& machine_after(cpu, cells, 1).0.current_cycle == 1
            &&& machine_after(cpu, cells, 2).0.current_cycle == 2
            &&& machine_after(cpu, cells, 3).0.current_cycle == 3
            &&& machine_after(cpu, cells, 4).0.current_cycle == 4
            &&& (crossed ==> machine_after(cpu, cells, 5).0.current_cycle == 5)
            &&& end.current_cycle == 0
            &&& end.program_counter == wrap_inc16(wrap_inc16(pc))
            &&& machine_after(cpu, cells, n).1 == cells
            &&& end.accumulator == applied.accumulator
            &&& end.x_index == applied.x_index
            &&& end.y_index == applied.y_index
            &&& end.flags == applied.flags
            &&& end.stack_pointer == cpu.stack_pointer
        }),
{
    reveal(crate::templates::read::indirect_y_spec);
    let pc = cpu.program_counter;
    let b = cells[pc as int];
    let p = cells[wrap_inc16(pc) as int];
    let lo = cells[p as int];
    let hi = cells[crate::instructions::wrap_inc8(p) as int];
    let crossed = lo + cpu.y_index >= 256;
    let target = (((hi * 256 + lo) + cpu.y_index) % 0x10000) as u16;
    let ea4 = (hi * 256 + crate::instructions::adc_result(lo, cpu.y_index, false)) as u16;
    let c1 = Cpu {
        current_opcode: opcode_of_byte(b),
        current_cycle: 1u8,
        program_counter: wrap_inc16(pc),
        ..cpu
    };
    let c2 = Cpu {
        pointer_address: p,
        current_cycle: 2u8,
        program_counter: wrap_inc16(wrap_inc16(pc)),
        ..c1
    };
    let c3 = Cpu { effective_address: lo as u16, current_cycle: 3u8, ..c2 };
    let c4 = Cpu {
        effective_address: ea4,
        internal_flags: crate::cpu::InternalFlags { effective_addr_carry: crossed },
        current_cycle: 4u8,
        ..c3
    };
    lemma_cycle_spec_fetch(cpu, cells);
    lemma_cycle_spec_read(c1, cells, op, Mode::IndirectY);
    lemma_cycle_spec_read(c2, cells, op, Mode::IndirectY);
    lemma_cycle_spec_read(c3, cells, op, Mode::IndirectY);
    lemma_cycle_spec_read(c4, cells, op, Mode::IndirectY);
    assert(crate::instructions::adc_carry_out(lo, cpu.y_index, false) == crossed);
    assert(crate::instructions::adc_result(lo, cpu.y_index, false) == if crossed {
        lo + cpu.y_index - 256
    } else {
        lo + cpu.y_index
    });
    lemma_machine_after_succ(cpu, cells, 0);
    assert(machine_after(cpu, cells, 1) == (c1, cells)) by {
        reveal_with_fuel(machine_after, 1);
    }
    lemma_machine_after_snoc(cpu, cells, 1);
    assert(machine_after(cpu, cells, 2) == (c2, cells));
    lemma_machine_after_snoc(cpu, cells, 2);
    assert(machine_after(cpu, cells, 3) == (c3, cells));
    lemma_machine_after_snoc(cpu, cells, 3);
    assert(machine_after(cpu, cells, 4) == (c4, cells));
    if crossed {
        let c5 = Cpu {
            effective_address: crate::cpu::page_fixup(ea4),
            current_cycle: 5u8,
            ..c4
        };
        assert(crate::cpu::page_fixup(ea4) == target);
        let v = cells[target as int];
        let end = Cpu { current_cycle: 0u8, ..apply_read_op(c5, op, v) };
        lemma_cycle_spec_read(c5, cells, op, Mode::IndirectY);
        lemma_machine_after_snoc(cpu, cells, 4);
        assert(machine_after(cpu, cells, 5) == (c5, cells));
        lemma_machine_after_snoc(cpu, cells, 5);
        assert(machine_after(cpu, cells, 6) == (end, cells));
        lemma_apply_read_op_frame(c5, cpu, op, v);
    } else {
        assert(ea4 == target);
        let v = cells[target as int];
        let end = Cpu { current_cycle: 0u8, ..apply_read_op(c4, op, v) };
        lemma_machine_after_snoc(cpu, cells, 4);
        assert(machine_after(cpu, cells, 5) == (end, cells));
        lemma_apply_read_op_frame(c4, cpu, op, v);
    }
}


/// A zero-page store instruction, run from the opcode fetch: exactly 3
/// cycles, `PC` advanced by its 2 bytes, the source register written to the
/// zero-page operand address, registers and flags untouched.
#[verifier::rlimit(100)]
pub proof fn lemma_store_zeropage_instruction(
    cpu: Cpu,
    cells: Seq<u8>,
    op: crate::instructions::StoreOp,
)
    requires
        cpu.current_cycle == 0,
        instr_of_opcode(opcode_of_byte(cells[cpu.program_counter as int])) == Instr::Store(
            op,
            Mode::ZeroPage,
        ),
    ensures
        ({
            let pc = cpu.program_counter;
            let target = cells[wrap_inc16(pc) as int] as u16;
            let end = machine_after(cpu, cells, 3).0;
            &&& machine_after(cpu, cells, 1).0.current_cycle == 1
            &&& machine_after(cpu, cells, 2).0.current_cycle == 2
            &&& end.current_cycle == 0
            &&& end.program_counter == wrap_inc16(wrap_inc16(pc))
            &&& target <= 0xFF
            &&& machine_after(cpu, cells, 3).1 == cells.update(
                target as int,
                crate::instructions::store_source(cpu, op),
            )
            &&& end.accumulator == cpu.accumulator
            &&& end.x_index == cpu.x_index
            &&& end.y_index == cpu.y_index
            &&& end.flags == cpu.flags
            &&& end.stack_pointer == cpu.stack_pointer
        }),
{
    reveal(crate::templates::store::zeropage_spec);
    let pc = cpu.program_counter;
    let b = cells[pc as int];
    let target = cells[wrap_inc16(pc) as int] as u16;
    let c1 = Cpu {
        current_opcode: opcode_of_byte(b),
        current_cycle: 1u8,
        program_counter: wrap_inc16(pc),
        ..cpu
    };
    let c2 = Cpu {
        effective_address: target,
        current_cycle: 2u8,
        program_counter: wrap_inc16(wrap_inc16(pc)),
        ..c1
    };
    let end = Cpu { current_cycle: 0u8, ..c2 };
    lemma_cycle_spec_fetch(cpu, cells);
    lemma_cycle_spec_store(c1, cells, op, Mode::ZeroPage);
    lemma_cycle_spec_store(c2, cells, op, Mode::ZeroPage);
    lemma_machine_after_succ(cpu, cells, 0);
    assert(machine_after(cpu, cells, 1) == (c1, cells)) by {
        reveal_with_fuel(machine_after, 1);
    }
    lemma_machine_after_snoc(cpu, cells, 1);
    assert(machine_after(cpu, cells, 2) == (c2, cells));
    lemma_machine_after_snoc(cpu, cells, 2);
    assert(machine_after(cpu, cells, 3) == (end, cells.update(target as int, crate::instructions::store_source(cpu, op))));
}

/// A zero-page indexed store instruction, run from the opcode fetch:
/// exactly 4 cycles, `PC` advanced by its 2 bytes, the source register
/// written at (base + index) mod 256 — the write never leaves the zero
/// page; registers and flags untouched.
#[verifier::rlimit(100)]
pub proof fn lemma_store_zeropage_indexed_instruction(
    cpu: Cpu,
    cells: Seq<u8>,
    index: IndexRegister,
    op: crate::instructions::StoreOp,
)
    requires
        cpu.current_cycle == 0,
        instr_of_opcode(opcode_of_byte(cells[cpu.program_counter as int])) == Instr::Store(
            op,
            if index == IndexRegister::X {
                Mode::ZeroPageX
            } else {
                Mode::ZeroPageY
            },
        ),
    ensures
        ({
            let pc = cpu.program_counter;
            let base = cells[wrap_inc16(pc) as int];
            let target = crate::instructions::wrap_add8(base, index_value(cpu, index)) as u16;
            let end = machine_after(cpu, cells, 4).0;
            &&& machine_after(cpu, cells, 1).0.current_cycle == 1
            &&& machine_after(cpu, cells, 2).0.current_cycle == 2
            &&& machine_after(cpu, cells, 3).0.current_cycle == 3
            &&& end.current_cycle == 0
            &&& end.program_counter == wrap_inc16(wrap_inc16(pc))
            &&& target <= 0xFF
            &&& machine_after(cpu, cells, 4).1 == cells.update(
                target as int,
                crate::instructions::store_source(cpu, op),
            )
            &&& end.accumulator == cpu.accumulator
            &&& end.x_index == cpu.x_index
            &&& end.y_index == cpu.y_index
            &&& end.flags == cpu.flags
            &&& end.stack_pointer == cpu.stack_pointer
        }),
{
    reveal(crate::templates::store::zeropage_indexed_spec);
    let pc = cpu.program_counter;
    let b = cells[pc as int];
    let mode = if index == IndexRegister::X {
        Mode::ZeroPageX
    } else {
        Mode::ZeroPageY
    };
    let base = cells[wrap_inc16(pc) as int];
    let target = crate::instructions::wrap_add8(base, index_value(cpu, index)) as u16;
    let c1 = Cpu {
        current_opcode: opcode_of_byte(b),
        current_cycle: 1u8,
        program_counter: wrap_inc16(pc),
        ..cpu
    };
    let c2 = Cpu {
        effective_address: base as u16,
        current_cycle: 2u8,
        program_counter: wrap_inc16(wrap_inc16(pc)),
        ..c1
    };
    let c3 = Cpu { effective_address: target, current_cycle: 3u8, ..c2 };
    let end = Cpu { current_cycle: 0u8, ..c3 };
    lemma_cycle_spec_fetch(cpu, cells);
    lemma_cycle_spec_store(c1, cells, op, mode);
    lemma_cycle_spec_store(c2, cells, op, mode);
    lemma_cycle_spec_store(c3, cells, op, mode);
    assert(cycle_spec(c1, cells) == crate::templates::store::zeropage_indexed_spec(
        c1,
        cells,
        index,
        op,
    ));
    assert(cycle_spec(c2, cells) == crate::templates::store::zeropage_indexed_spec(
        c2,
        cells,
        index,
        op,
    ));
    assert(cycle_spec(c3, cells) == crate::templates::store::zeropage_indexed_spec(
        c3,
        cells,
        index,
        op,
    ));
    lemma_machine_after_succ(cpu, cells, 0);
    assert(machine_after(cpu, cells, 1) == (c1, cells)) by {
        reveal_with_fuel(machine_after, 1);
    }
    lemma_machine_after_snoc(cpu, cells, 1);
    assert(machine_after(cpu, cells, 2) == (c2, cells));
    lemma_machine_after_snoc(cpu, cells, 2);
    assert(machine_after(cpu, cells, 3) == (c3, cells));
    lemma_machine_after_snoc(cpu, cells, 3);
    assert(machine_after(cpu, cells, 4) == (end, cells.update(target as int, crate::instructions::store_source(cpu, op))));
}

/// An absolute store instruction, run from the opcode fetch: exactly 4
/// cycles, `PC` advanced by its 3 bytes, the source register written to the
/// little-endian operand address, registers and flags untouched.
#[verifier::rlimit(100)]
pub proof fn lemma_store_absolute_instruction(
    cpu: Cpu,
    cells: Seq<u8>,
    op: crate::instructions::StoreOp,
)
    requires
        cpu.current_cycle == 0,
        instr_of_opcode(opcode_of_byte(cells[cpu.program_counter as int])) == Instr::Store(
            op,
            Mode::Absolute,
        ),
    ensures
        ({
            let pc = cpu.program_counter;
            let lo = cells[wrap_inc16(pc) as int];
            let hi = cells[wrap_inc16(wrap_inc16(pc)) as int];
            let target = (hi * 256 + lo) as u16;
            let end = machine_after(cpu, cells, 4).0;
            &&& machine_after(cpu, cells, 1).0.current_cycle == 1
            &&& machine_after(cpu, cells, 2).0.current_cycle == 2
            &&& machine_after(cpu, cells, 3).0.current_cycle == 3
            &&& end.current_cycle == 0
            &&& end.program_counter == wrap_inc16(wrap_inc16(wrap_inc16(pc)))
            &&& machine_after(cpu, cells, 4).1 == cells.update(
                target as int,
                crate::instructions::store_source(cpu, op),
            )
            &&& end.accumulator == cpu.accumulator
            &&& end.x_index == cpu.x_index
            &&& end.y_index == cpu.y_index
            &&& end.flags == cpu.flags
            &&& end.stack_pointer == cpu.stack_pointer
        }),
{
    reveal(crate::templates::store::absolute_spec);
    let pc = cpu.program_counter;
    let b = cells[pc as int];
    let lo = cells[wrap_inc16(pc) as int];
    let hi = cells[wrap_inc16(wrap_inc16(pc)) as int];
    let target = (hi * 256 + lo) as u16;
    let c1 = Cpu {
        current_opcode: opcode_of_byte(b),
        current_cycle: 1u8,
        program_counter: wrap_inc16(pc),
        ..cpu
    };
    let c2 = Cpu {
        effective_address: lo as u16,
        current_cycle: 2u8,
        program_counter: wrap_inc16(wrap_inc16(pc)),
        ..c1
    };
    let c3 = Cpu {
        effective_address: target,
        current_cycle: 3u8,
        program_counter: wrap_inc16(wrap_inc16(wrap_inc16(pc))),
        ..c2
    };
    let end = Cpu { current_cycle: 0u8, ..c3 };
    lemma_cycle_spec_fetch(cpu, cells);
    lemma_cycle_spec_store(c1, cells, op, Mode::Absolute);
    lemma_cycle_spec_store(c2, cells, op, Mode::Absolute);
    lemma_cycle_spec_store(c3, cells, op, Mode::Absolute);
    lemma_machine_after_succ(cpu, cells, 0);
    assert(machine_after(cpu, cells, 1) == (c1, cells)) by {
        reveal_with_fuel(machine_after, 1);
    }
    lemma_machine_after_snoc(cpu, cells, 1);
    assert(machine_after(cpu, cells, 2) == (c2, cells));
    lemma_machine_after_snoc(cpu, cells, 2);
    assert(machine_after(cpu, cells, 3) == (c3, cells));
    lemma_machine_after_snoc(cpu, cells, 3);
    assert(machine_after(cpu, cells, 4) == (end, cells.update(target as int, crate::instructions::store_source(cpu, op))));
}

/// The addressing cycles of an absolute indexed store, run from the opcode
/// fetch: the states after 1 to 4 cycles.
#[verifier::rlimit(100)]
proof fn lemma_store_absolute_indexed_addressing(
    cpu: Cpu,
    cells: Seq<u8>,
    index: IndexRegister,
    op: crate::instructions::StoreOp,
)
    requires
        cpu.current_cycle == 0,
        instr_of_opcode(opcode_of_byte(cells[cpu.program_counter as int])) == Instr::Store(
            op,
            if index == IndexRegister::X {
                Mode::AbsoluteX
            } else {
                Mode::AbsoluteY
            },
        ),
    ensures
        ({
            let pc = cpu.program_counter;
            let b = cells[pc as int];
            let lo = cells[wrap_inc16(pc) as int];
            let hi = cells[wrap_inc16(wrap_inc16(pc)) as int];
            let idx = index_value(cpu, index);
            let crossed = lo + idx >= 256;
            let target = (((hi * 256 + lo) + idx) % 0x10000) as u16;
            let ea3 = (hi * 256 + crate::instructions::adc_result(lo, idx, false)) as u16;
            let c1 = Cpu {
                current_opcode: opcode_of_byte(b),
                current_cycle: 1u8,
                program_counter: wrap_inc16(pc),
                ..cpu
            };
            let c2 = Cpu {
                effective_address: lo as u16,
                current_cycle: 2u8,
                program_counter: wrap_inc16(wrap_inc16(pc)),
                ..c1
            };
            let c3 = Cpu {
                effective_address: ea3,
                internal_flags: crate::cpu::InternalFlags { effective_addr_carry: crossed },
                current_cycle: 3u8,
                program_counter: wrap_inc16(wrap_inc16(wrap_inc16(pc))),
                ..c2
            };
            let c4 = Cpu { effective_address: target, current_cycle: 4u8, ..c3 };
            &&& machine_after(cpu, cells, 1) == (c1, cells)
            &&& machine_after(cpu, cells, 2) == (c2, cells)
            &&& machine_after(cpu, cells, 3) == (c3, cells)
            &&& machine_after(cpu, cells, 4) == (c4, cells)
        }),
{
    let pc = cpu.program_counter;
    let b = cells[pc as int];
    let mode = if index == IndexRegister::X {
        Mode::AbsoluteX
    } else {
        Mode::AbsoluteY
    };
    let lo = cells[wrap_inc16(pc) as int];
    let hi = cells[wrap_inc16(wrap_inc16(pc)) as int];
    let idx = index_value(cpu, index);
    let crossed = lo + idx >= 256;
    let target = (((hi * 256 + lo) + idx) % 0x10000) as u16;
    let ea3 = (hi * 256 + crate::instructions::adc_result(lo, idx, false)) as u16;
    let c1 = Cpu {
        current_opcode: opcode_of_byte(b),
        current_cycle: 1u8,
        program_counter: wrap_inc16(pc),
        ..cpu
    };
    let c2 = Cpu {
        effective_address: lo as u16,
        current_cycle: 2u8,
        program_counter: wrap_inc16(wrap_inc16(pc)),
        ..c1
    };
    let c3 = Cpu {
        effective_address: ea3,
        internal_flags: crate::cpu::InternalFlags { effective_addr_carry: crossed },
        current_cycle: 3u8,
        program_counter: wrap_inc16(wrap_inc16(wrap_inc16(pc))),
        ..c2
    };
    let c4 = Cpu { effective_address: target, current_cycle: 4u8, ..c3 };
    assert(machine_after(cpu, cells, 1) == (c1, cells)) by {
        lemma_machine_after_succ(cpu, cells, 0);
        lemma_cycle_spec_fetch(cpu, cells);
        reveal_with_fuel(machine_after, 1);
    }
    assert(machine_after(cpu, cells, 2) == (c2, cells)) by {
        lemma_machine_after_snoc(cpu, cells, 1);
        lemma_cycle_spec_store(c1, cells, op, mode);
        reveal(crate::templates::store::absolute_indexed_spec);
    }
    assert(machine_after(cpu, cells, 3) == (c3, cells)) by {
        lemma_machine_after_snoc(cpu, cells, 2);
        lemma_cycle_spec_store(c2, cells, op, mode);
        reveal(crate::templates::store::absolute_indexed_spec);
    }
    assert(machine_after(cpu, cells, 4) == (c4, cells)) by {
        lemma_machine_after_snoc(cpu, cells, 3);
        lemma_cycle_spec_store(c3, cells, op, mode);
        reveal(crate::templates::store::absolute_indexed_spec);
        assert(crate::instructions::adc_carry_out(lo, idx, false) == crossed);
        assert(crate::instructions::adc_result(lo, idx, false) == if crossed {
            lo + idx - 256
        } else {
            lo + idx
        });
        assert(target == if crossed {
            crate::cpu::page_fixup(ea3)
        } else {
            ea3
        });
    }
}

/// An absolute indexed store instruction, run from the opcode fetch: always
/// exactly 5 cycles, page cross or not — the fix-up cycle with its dummy
/// read is unconditional, because a store must not commit to a possibly
/// wrong address. `PC` advances by its 3 bytes and the source register is
/// written at (base + index) mod 2^16; registers and flags untouched.
#[verifier::rlimit(100)]
pub proof fn lemma_store_absolute_indexed_instruction(
    cpu: Cpu,
    cells: Seq<u8>,
    index: IndexRegister,
    op: crate::instructions::StoreOp,
)
    requires
        cpu.current_cycle == 0,
        instr_of_opcode(opcode_of_byte(cells[cpu.program_counter as int])) == Instr::Store(
            op,
            if index == IndexRegister::X {
                Mode::AbsoluteX
            } else {
                Mode::AbsoluteY
            },
        ),
    ensures
        ({
            let pc = cpu.program_counter;
            let lo = cells[wrap_inc16(pc) as int];
            let hi = cells[wrap_inc16(wrap_inc16(pc)) as int];
            let idx = index_value(cpu, index);
            let target = (((hi * 256 + lo) + idx) % 0x10000) as u16;
            let end = machine_after(cpu, cells, 5).0;
            &&& machine_after(cpu, cells, 1).0.current_cycle == 1
            &&& machine_after(cpu, cells, 2).0.current_cycle == 2
            &&& machine_after(cpu, cells, 3).0.current_cycle == 3
            &&& machine_after(cpu, cells, 4).0.current_cycle == 4
            &&& end.current_cycle == 0
            &&& end.program_counter == wrap_inc16(wrap_inc16(wrap_inc16(pc)))
            &&& machine_after(cpu, cells, 5).1 == cells.update(
                target as int,
                crate::instructions::store_source(cpu, op),
            )
            &&& end.accumulator == cpu.accumulator
            &&& end.x_index == cpu.x_index
            &&& end.y_index == cpu.y_index
            &&& end.flags == cpu.flags
            &&& end.stack_pointer == cpu.stack_pointer
        }),
{
    let pc = cpu.program_counter;
    let mode = if index == IndexRegister::X {
        Mode::AbsoluteX
    } else {
        Mode::AbsoluteY
    };
    let lo = cells[wrap_inc16(pc) as int];
    let hi = cells[wrap_inc16(wrap_inc16(pc)) as int];
    let idx = index_value(cpu, index);
    let target = (((hi * 256 + lo) + idx) % 0x10000) as u16;
    lemma_store_absolute_indexed_addressing(cpu, cells, index, op);
    let c4 = machine_after(cpu, cells, 4).0;
    let end = Cpu { current_cycle: 0u8, ..c4 };
    assert(machine_after(cpu, cells, 5) == (end, cells.update(
        target as int,
        crate::instructions::store_source(cpu, op),
    ))) by {
        lemma_machine_after_snoc(cpu, cells, 4);
        lemma_cycle_spec_store(machine_after(cpu, cells, 4).0, cells, op, mode);
        reveal(crate::templates::store::absolute_indexed_spec);
    }
}

/// An indirect,X store instruction, run from the opcode fetch: exactly 6
/// cycles, `PC` advanced by its 2 bytes, the source register written at the
/// address read little-endian at the indexed zero-page pointer — both
/// pointer bytes read with zero-page wrap-around; registers and flags
/// untouched.
#[verifier::rlimit(100)]
pub proof fn lemma_store_indirect_x_instruction(
    cpu: Cpu,
    cells: Seq<u8>,
    op: crate::instructions::StoreOp,
)
    requires
        cpu.current_cycle == 0,
        instr_of_opcode(opcode_of_byte(cells[cpu.program_counter as int])) == Instr::Store(
            op,
            Mode::IndirectX,
        ),
    ensures
        ({
            let pc = cpu.program_counter;
            let p = crate::instructions::wrap_add8(
                cells[wrap_inc16(pc) as int],
                cpu.x_index,
            );
            let lo = cells[p as int];
            let hi = cells[crate::instructions::wrap_inc8(p) as int];
            let target = (hi * 256 + lo) as u16;
            let end = machine_after(cpu, cells, 6).0;
            &&& machine_after(cpu, cells, 1).0.current_cycle == 1
            &&& machine_after(cpu, cells, 2).0.current_cycle == 2
            &&& machine_after(cpu, cells, 3).0.current_cycle == 3
            &&& machine_after(cpu, cells, 4).0.current_cycle == 4
            &&& machine_after(cpu, cells, 5).0.current_cycle == 5
            &&& end.current_cycle == 0
            &&& end.program_counter == wrap_inc16(wrap_inc16(pc))
            &&& machine_after(cpu, cells, 6).1 == cells.update(
                target as int,
                crate::instructions::store_source(cpu, op),
            )
            &&& end.accumulator == cpu.accumulator
            &&& end.x_index == cpu.x_index
            &&& end.y_index == cpu.y_index
            &&& end.flags == cpu.flags
            &&& end.stack_pointer == cpu.stack_pointer
        }),
{
    reveal(crate::templates::store::indirect_x_spec);
    let pc = cpu.program_counter;
    let b = cells[pc as int];
    let p0 = cells[wrap_inc16(pc) as int];
    let p = crate::instructions::wrap_add8(p0, cpu.x_index);
    let lo = cells[p as int];
    let hi = cells[crate::instructions::wrap_inc8(p) as int];
    let target = (hi * 256 + lo) as u16;
    let c1 = Cpu {
        current_opcode: opcode_of_byte(b),
        current_cycle: 1u8,
        program_counter: wrap_inc16(pc),
        ..cpu
    };
    let c2 = Cpu {
        pointer_address: p0,
        current_cycle: 2u8,
        program_counter: wrap_inc16(wrap_inc16(pc)),
        ..c1
    };
    let c3 = Cpu { pointer_address: p, current_cycle: 3u8, ..c2 };
    let c4 = Cpu { effective_address: lo as u16, current_cycle: 4u8, ..c3 };
    let c5 = Cpu { effective_address: target, current_cycle: 5u8, ..c4 };
    let end = Cpu { current_cycle: 0u8, ..c5 };
    lemma_cycle_spec_fetch(cpu, cells);
    lemma_cycle_spec_store(c1, cells, op, Mode::IndirectX);
    lemma_cycle_spec_store(c2, cells, op, Mode::IndirectX);
    lemma_cycle_spec_store(c3, cells, op, Mode::IndirectX);
    lemma_cycle_spec_store(c4, cells, op, Mode::IndirectX);
    lemma_cycle_spec_store(c5, cells, op, Mode::IndirectX);
    lemma_machine_after_succ(cpu, cells, 0);
    assert(machine_after(cpu, cells, 1) == (c1, cells)) by {
        reveal_with_fuel(machine_after, 1);
    }
    lemma_machine_after_snoc(cpu, cells, 1);
    assert(machine_after(cpu, cells, 2) == (c2, cells));
    lemma_machine_after_snoc(cpu, cells, 2);
    assert(machine_after(cpu, cells, 3) == (c3, cells));
    lemma_machine_after_snoc(cpu, cells, 3);
    assert(machine_after(cpu, cells, 4) == (c4, cells));
    lemma_machine_after_snoc(cpu, cells, 4);
    assert(machine_after(cpu, cells, 5) == (c5, cells));
    lemma_machine_after_snoc(cpu, cells, 5);
    assert(machine_after(cpu, cells, 6) == (end, cells.update(target as int, crate::instructions::store_source(cpu, op))));
}

/// The addressing cycles of an indirect,Y store, run from the opcode
/// fetch: the states after 1 to 4 cycles.
#[verifier::rlimit(100)]
proof fn lemma_store_indirect_y_addressing(
    cpu: Cpu,
    cells: Seq<u8>,
    op: crate::instructions::StoreOp,
)
    requires
        cpu.current_cycle == 0,
        instr_of_opcode(opcode_of_byte(cells[cpu.program_counter as int])) == Instr::Store(
            op,
            Mode::IndirectY,
        ),
    ensures
        ({
            let pc = cpu.program_counter;
            let b = cells[pc as int];
            let p = cells[wrap_inc16(pc) as int];
            let lo = cells[p as int];
            let hi = cells[crate::instructions::wrap_inc8(p) as int];
            let crossed = lo + cpu.y_index >= 256;
            let ea4 = (hi * 256 + crate::instructions::adc_result(lo, cpu.y_index, false)) as u16;
            let c1 = Cpu {
                current_opcode: opcode_of_byte(b),
                current_cycle: 1u8,
                program_counter: wrap_inc16(pc),
                ..cpu
            };
            let c2 = Cpu {
                pointer_address: p,
                current_cycle: 2u8,
                program_counter: wrap_inc16(wrap_inc16(pc)),
                ..c1
            };
            let c3 = Cpu { effective_address: lo as u16, current_cycle: 3u8, ..c2 };
            let c4 = Cpu {
                effective_address: ea4,
                internal_flags: crate::cpu::InternalFlags { effective_addr_carry: crossed },
                current_cycle: 4u8,
                ..c3
            };
            &&& machine_after(cpu, cells, 1) == (c1, cells)
            &&& machine_after(cpu, cells, 2) == (c2, cells)
            &&& machine_after(cpu, cells, 3) == (c3, cells)
            &&& machine_after(cpu, cells, 4) == (c4, cells)
        }),
{
    let pc = cpu.program_counter;
    let b = cells[pc as int];
    let p = cells[wrap_inc16(pc) as int];
    let lo = cells[p as int];
    let hi = cells[crate::instructions::wrap_inc8(p) as int];
    let crossed = lo + cpu.y_index >= 256;
    let ea4 = (hi * 256 + crate::instructions::adc_result(lo, cpu.y_index, false)) as u16;
    let c1 = Cpu {
        current_opcode: opcode_of_byte(b),
        current_cycle: 1u8,
        program_counter: wrap_inc16(pc),
        ..cpu
    };
    let c2 = Cpu {
        pointer_address: p,
        current_cycle: 2u8,
        program_counter: wrap_inc16(wrap_inc16(pc)),
        ..c1
    };
    let c3 = Cpu { effective_address: lo as u16, current_cycle: 3u8, ..c2 };
    let c4 = Cpu {
        effective_address: ea4,
        internal_flags: crate::cpu::InternalFlags { effective_addr_carry: crossed },
        current_cycle: 4u8,
        ..c3
    };
    assert(machine_after(cpu, cells, 1) == (c1, cells)) by {
        lemma_machine_after_succ(cpu, cells, 0);
        lemma_cycle_spec_fetch(cpu, cells);
        reveal_with_fuel(machine_after, 1);
    }
    assert(machine_after(cpu, cells, 2) == (c2, cells)) by {
        lemma_machine_after_snoc(cpu, cells, 1);
        lemma_cycle_spec_store(c1, cells, op, Mode::IndirectY);
        reveal(crate::templates::store::indirect_y_spec);
    }
    assert(machine_after(cpu, cells, 3) == (c3, cells)) by {
        lemma_machine_after_snoc(cpu, cells, 2);
        lemma_cycle_spec_store(c2, cells, op, Mode::IndirectY);
        reveal(crate::templates::store::indirect_y_spec);
    }
    assert(machine_after(cpu, cells, 4) == (c4, cells)) by {
        lemma_machine_after_snoc(cpu, cells, 3);
        lemma_cycle_spec_store(c3, cells, op, Mode::IndirectY);
        reveal(crate::templates::store::indirect_y_spec);
    }
}

/// An indirect,Y store instruction, run from the opcode fetch: always
/// exactly 6 cycles, page cross or not — the fix-up cycle with its dummy
/// read is unconditional. `PC` advances by its 2 bytes and the source
/// register is written at (pointer target + Y) mod 2^16, the pointer read
/// little-endian in the zero page with wrap-around at 0xFF; registers and
/// flags untouched.
#[verifier::rlimit(100)]
pub proof fn lemma_store_indirect_y_instruction(
    cpu: Cpu,
    cells: Seq<u8>,
    op: crate::instructions::StoreOp,
)
    requires
        cpu.current_cycle == 0,
        instr_of_opcode(opcode_of_byte(cells[cpu.program_counter as int])) == Instr::Store(
            op,
            Mode::IndirectY,
        ),
    ensures
        ({
            let pc = cpu.program_counter;
            let p = cells[wrap_inc16(pc) as int];
            let lo = cells[p as int];
            let hi = cells[crate::instructions::wrap_inc8(p) as int];
            let target = (((hi * 256 + lo) + cpu.y_index) % 0x10000) as u16;
            let end = machine_after(cpu, cells, 6).0;
            &&& machine_after(cpu, cells, 1).0.current_cycle == 1
            &&& machine_after(cpu, cells, 2).0.current_cycle == 2
            &&& machine_after(cpu, cells, 3).0.current_cycle == 3
            &&& machine_after(cpu, cells, 4).0.current_cycle == 4
            &&& machine_after(cpu, cells, 5).0.current_cycle == 5
            &&& end.current_cycle == 0
            &&& end.program_counter == wrap_inc16(wrap_inc16(pc))
            &&& machine_after(cpu, cells, 6).1 == cells.update(
                target as int,
                crate::instructions::store_source(cpu, op),
            )
            &&& end.accumulator == cpu.accumulator
            &&& end.x_index == cpu.x_index
            &&& end.y_index == cpu.y_index
            &&& end.flags == cpu.flags
            &&& end.stack_pointer == cpu.stack_pointer
        }),
{
    let pc = cpu.program_counter;
    let p = cells[wrap_inc16(pc) as int];
    let lo = cells[p as int];
    let hi = cells[crate::instructions::wrap_inc8(p) as int];
    let crossed = lo + cpu.y_index >= 256;
    let target = (((hi * 256 + lo) + cpu.y_index) % 0x10000) as u16;
    let ea4 = (hi * 256 + crate::instructions::adc_result(lo, cpu.y_index, false)) as u16;
    lemma_store_indirect_y_addressing(cpu, cells, op);
    let c4 = machine_after(cpu, cells, 4).0;
    let c5 = Cpu { effective_address: target, current_cycle: 5u8, ..c4 };
    let end = Cpu { current_cycle: 0u8, ..c5 };
    assert(machine_after(cpu, cells, 5) == (c5, cells)) by {
        lemma_machine_after_snoc(cpu, cells, 4);
        lemma_cycle_spec_store(c4, cells, op, Mode::IndirectY);
        reveal(crate::templates::store::indirect_y_spec);
        assert(crate::instructions::adc_carry_out(lo, cpu.y_index, false) == crossed);
        assert(crate::instructions::adc_result(lo, cpu.y_index, false) == if crossed {
            lo + cpu.y_index - 256
        } else {
            lo + cpu.y_index
        });
        assert(target == if crossed {
            crate::cpu::page_fixup(ea4)
        } else {
            ea4
        });
    }
    assert(machine_after(cpu, cells, 6) == (end, cells.update(
        target as int,
        crate::instructions::store_source(cpu, op),
    ))) by {
        lemma_machine_after_snoc(cpu, cells, 5);
        lemma_cycle_spec_store(c5, cells, op, Mode::IndirectY);
        reveal(crate::templates::store::indirect_y_spec);
    }
}

} // verus!
