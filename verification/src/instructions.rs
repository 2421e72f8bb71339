//! The per-mnemonic semantic effects and the flag primitives.
//!
//! Each instruction is one value of a small sum type; the addressing-mode
//! templates are parameterized by that value and apply the effect once the
//! operand byte is available. The spec functions here are the authoritative
//! model of every effect: result bytes, carry, overflow, zero and negative.

use vstd::prelude::*;

use crate::cpu::Cpu;
use crate::cpu::StatusFlags;

verus! {

/// The index register an indexed addressing mode adds to its base address.
#[derive(Clone, Copy, PartialEq, Eq, Structural, Debug)]
pub enum IndexRegister {
    X,
    Y,
}

/// The value of the chosen index register.
pub open spec fn index_value(cpu: Cpu, r: IndexRegister) -> u8 {
    match r {
        IndexRegister::X => cpu.x_index,
        IndexRegister::Y => cpu.y_index,
    }
}

/// Instructions that read one operand byte and update registers or flags.
#[derive(Clone, Copy, PartialEq, Eq, Structural, Debug)]
pub enum ReadOp {
    Adc,
    And,
    Bit,
    Cmp,
    Eor,
    Lda,
    Ldx,
    Ldy,
    Ora,
    Sbc,
}

/// Instructions that write one register to memory.
#[derive(Clone, Copy, PartialEq, Eq, Structural, Debug)]
pub enum StoreOp {
    Sta,
    Stx,
    Sty,
}

/// One-byte instructions: flag changes, register transfers, increments and
/// decrements, and NOP.
#[derive(Clone, Copy, PartialEq, Eq, Structural, Debug)]
pub enum ImpliedOp {
    Clc,
    Cld,
    Cli,
    Clv,
    Dex,
    Dey,
    Inx,
    Iny,
    Nop,
    Sec,
    Sed,
    Sei,
    Tax,
    Tay,
    Tsx,
    Txa,
    Txs,
    Tya,
}

/// Bit 7 of a byte, the sign of its two's-complement reading.
pub open spec fn sign_bit(v: u8) -> bool {
    v >= 0x80
}

/// Bit 6 of a byte.
pub open spec fn bit6(v: u8) -> bool {
    (v / 64) % 2 == 1
}

/// The 9-bit sum A + M + C of the carrying add.
pub open spec fn carrying_sum(a: u8, m: u8, carry: bool) -> int {
    a + m + (if carry {
        1int
    } else {
        0int
    })
}

/// The result byte of A + M + C.
pub open spec fn adc_result(a: u8, m: u8, carry: bool) -> u8 {
    (carrying_sum(a, m, carry) % 256) as u8
}

/// Bit 8 of A + M + C: the carry out.
pub open spec fn adc_carry_out(a: u8, m: u8, carry: bool) -> bool {
    carrying_sum(a, m, carry) >= 256
}

/// Signed overflow of A + M + C: the operands agree in sign and the result
/// does not.
pub open spec fn adc_overflow(a: u8, m: u8, carry: bool) -> bool {
    sign_bit(a) == sign_bit(m) && sign_bit(adc_result(a, m, carry)) != sign_bit(a)
}

/// The bitwise complement of a byte.
pub open spec fn ones_complement(m: u8) -> u8 {
    (255 - m) as u8
}

/// The result byte of A - M - (1 - C), computed as A + !M + C as on the chip.
pub open spec fn sbc_result(a: u8, m: u8, carry: bool) -> u8 {
    adc_result(a, ones_complement(m), carry)
}

/// The carry out of A + !M + C: set exactly when no borrow occurred.
pub open spec fn sbc_carry_out(a: u8, m: u8, carry: bool) -> bool {
    adc_carry_out(a, ones_complement(m), carry)
}

/// Signed overflow of the borrowing subtract.
pub open spec fn sbc_overflow(a: u8, m: u8, carry: bool) -> bool {
    adc_overflow(a, ones_complement(m), carry)
}

/// The flags after any write to A, X or Y: ZERO and NEGATIVE follow the
/// written value, the rest are untouched.
pub open spec fn with_nz(f: StatusFlags, v: u8) -> StatusFlags {
    StatusFlags { zero: v == 0, negative: sign_bit(v), ..f }
}

/// An 8-bit add that wraps modulo 256: zero-page pointer arithmetic.
pub open spec fn wrap_add8(a: u8, b: u8) -> u8 {
    if a + b > 255 {
        (a + b - 256) as u8
    } else {
        (a + b) as u8
    }
}

/// An 8-bit increment that wraps from 0xFF to 0x00.
pub open spec fn wrap_inc8(v: u8) -> u8 {
    if v == 0xFF {
        0u8
    } else {
        (v + 1) as u8
    }
}

/// An 8-bit decrement that wraps from 0x00 to 0xFF.
pub open spec fn wrap_dec8(v: u8) -> u8 {
    if v == 0 {
        0xFFu8
    } else {
        (v - 1) as u8
    }
}

/// Add with carry-in, giving the result byte and the carry out.
pub fn add_with_carry(a: u8, m: u8, carry: bool) -> (r: (u8, bool))
    ensures
        r.0 == adc_result(a, m, carry),
        r.1 == adc_carry_out(a, m, carry),
{
    let total: u16 = a as u16 + m as u16 + (if carry {
        1u16
    } else {
        0u16
    });
    ((total % 256) as u8, total >= 256)
}

/// Subtract with borrow expressed as carry: A - M - (1 - C), computed as
/// A + !M + C.
pub fn sub_with_carry(a: u8, m: u8, carry: bool) -> (r: (u8, bool))
    ensures
        r.0 == sbc_result(a, m, carry),
        r.1 == sbc_carry_out(a, m, carry),
{
    add_with_carry(a, 255 - m, carry)
}

/// Register-write flag rule: ZERO and NEGATIVE from the written value.
pub fn nz_flags(f: StatusFlags, v: u8) -> (r: StatusFlags)
    ensures
        r == with_nz(f, v),
{
    StatusFlags { zero: v == 0, negative: v >= 0x80, ..f }
}

/// The CPU after a read-family instruction consumed the operand byte `m`.
/// This is the flag table of the core: every mnemonic's result and exact
/// flag updates in one place.
#[verifier::opaque]
pub open spec fn apply_read_op(cpu: Cpu, op: ReadOp, m: u8) -> Cpu {
    match op {
        ReadOp::Adc => {
            let r = adc_result(cpu.accumulator, m, cpu.flags.carry);
            Cpu {
                accumulator: r,
                flags: StatusFlags {
                    carry: adc_carry_out(cpu.accumulator, m, cpu.flags.carry),
                    overflow: adc_overflow(cpu.accumulator, m, cpu.flags.carry),
                    ..with_nz(cpu.flags, r)
                },
                ..cpu
            }
        },
        ReadOp::Sbc => {
            let r = sbc_result(cpu.accumulator, m, cpu.flags.carry);
            Cpu {
                accumulator: r,
                flags: StatusFlags {
                    carry: sbc_carry_out(cpu.accumulator, m, cpu.flags.carry),
                    overflow: sbc_overflow(cpu.accumulator, m, cpu.flags.carry),
                    ..with_nz(cpu.flags, r)
                },
                ..cpu
            }
        },
        ReadOp::And => {
            let r = cpu.accumulator & m;
            Cpu { accumulator: r, flags: with_nz(cpu.flags, r), ..cpu }
        },
        ReadOp::Ora => {
            let r = cpu.accumulator | m;
            Cpu { accumulator: r, flags: with_nz(cpu.flags, r), ..cpu }
        },
        ReadOp::Eor => {
            let r = cpu.accumulator ^ m;
            Cpu { accumulator: r, flags: with_nz(cpu.flags, r), ..cpu }
        },
        ReadOp::Cmp => {
            let r = sbc_result(cpu.accumulator, m, true);
            Cpu {
                flags: StatusFlags {
                    carry: sbc_carry_out(cpu.accumulator, m, true),
                    ..with_nz(cpu.flags, r)
                },
                ..cpu
            }
        },
        ReadOp::Bit => Cpu {
            flags: StatusFlags {
                zero: (cpu.accumulator & m) == 0,
                negative: sign_bit(m),
                overflow: bit6(m),
                ..cpu.flags
            },
            ..cpu
        },
        ReadOp::Lda => Cpu { accumulator: m, flags: with_nz(cpu.flags, m), ..cpu },
        ReadOp::Ldx => Cpu { x_index: m, flags: with_nz(cpu.flags, m), ..cpu },
        ReadOp::Ldy => Cpu { y_index: m, flags: with_nz(cpu.flags, m), ..cpu },
    }
}

/// Apply the semantic effect of a read-family instruction to the operand
/// byte, exactly as `apply_read_op` describes.
#[verifier::rlimit(60)]
pub fn exec_read_op(cpu: &mut Cpu, op: ReadOp, m: u8)
    ensures
        *final(cpu) == apply_read_op(*old(cpu), op, m),
{
    proof {
        reveal(crate::instructions::apply_read_op);
    }
    match op {
        ReadOp::Adc => {
            let (r, c) = add_with_carry(cpu.accumulator, m, cpu.flags.carry);
            let v = (cpu.accumulator >= 0x80) == (m >= 0x80) && (r >= 0x80) != (cpu.accumulator
                >= 0x80);
            cpu.flags = nz_flags(cpu.flags, r);
            cpu.flags.carry = c;
            cpu.flags.overflow = v;
            cpu.accumulator = r;
        },
        ReadOp::Sbc => {
            let inverted: u8 = 255 - m;
            let (r, c) = add_with_carry(cpu.accumulator, inverted, cpu.flags.carry);
            let v = (cpu.accumulator >= 0x80) == (inverted >= 0x80) && (r >= 0x80) != (
            cpu.accumulator >= 0x80);
            cpu.flags = nz_flags(cpu.flags, r);
            cpu.flags.carry = c;
            cpu.flags.overflow = v;
            cpu.accumulator = r;
        },
        ReadOp::And => {
            let r = cpu.accumulator & m;
            cpu.flags = nz_flags(cpu.flags, r);
            cpu.accumulator = r;
        },
        ReadOp::Ora => {
            let r = cpu.accumulator | m;
            cpu.flags = nz_flags(cpu.flags, r);
            cpu.accumulator = r;
        },
        ReadOp::Eor => {
            let r = cpu.accumulator ^ m;
            cpu.flags = nz_flags(cpu.flags, r);
            cpu.accumulator = r;
        },
        ReadOp::Cmp => {
            let (r, c) = sub_with_carry(cpu.accumulator, m, true);
            cpu.flags = nz_flags(cpu.flags, r);
            cpu.flags.carry = c;
        },
        ReadOp::Bit => {
            cpu.flags.zero = (cpu.accumulator & m) == 0;
            cpu.flags.negative = m >= 0x80;
            cpu.flags.overflow = (m / 64) % 2 == 1;
        },
        ReadOp::Lda => {
            cpu.flags = nz_flags(cpu.flags, m);
            cpu.accumulator = m;
        },
        ReadOp::Ldx => {
            cpu.flags = nz_flags(cpu.flags, m);
            cpu.x_index = m;
        },
        ReadOp::Ldy => {
            cpu.flags = nz_flags(cpu.flags, m);
            cpu.y_index = m;
        },
    }
}

/// The register a store-family instruction writes to memory.
pub open spec fn store_source(cpu: Cpu, op: StoreOp) -> u8 {
    match op {
        StoreOp::Sta => cpu.accumulator,
        StoreOp::Stx => cpu.x_index,
        StoreOp::Sty => cpu.y_index,
    }
}

/// The CPU after a one-byte instruction.
#[verifier::opaque]
pub open spec fn apply_implied_op(cpu: Cpu, op: ImpliedOp) -> Cpu {
    match op {
        ImpliedOp::Clc => Cpu { flags: StatusFlags { carry: false, ..cpu.flags }, ..cpu },
        ImpliedOp::Cld => Cpu { flags: StatusFlags { decimal: false, ..cpu.flags }, ..cpu },
        ImpliedOp::Cli => Cpu {
            flags: StatusFlags { interrupt_disable: false, ..cpu.flags },
            ..cpu
        },
        ImpliedOp::Clv => Cpu { flags: StatusFlags { overflow: false, ..cpu.flags }, ..cpu },
        ImpliedOp::Sec => Cpu { flags: StatusFlags { carry: true, ..cpu.flags }, ..cpu },
        ImpliedOp::Sed => Cpu { flags: StatusFlags { decimal: true, ..cpu.flags }, ..cpu },
        ImpliedOp::Sei => Cpu {
            flags: StatusFlags { interrupt_disable: true, ..cpu.flags },
            ..cpu
        },
        ImpliedOp::Dex => {
            let r = wrap_dec8(cpu.x_index);
            Cpu { x_index: r, flags: with_nz(cpu.flags, r), ..cpu }
        },
        ImpliedOp::Dey => {
            let r = wrap_dec8(cpu.y_index);
            Cpu { y_index: r, flags: with_nz(cpu.flags, r), ..cpu }
        },
        ImpliedOp::Inx => {
            let r = wrap_inc8(cpu.x_index);
            Cpu { x_index: r, flags: with_nz(cpu.flags, r), ..cpu }
        },
        ImpliedOp::Iny => {
            let r = wrap_inc8(cpu.y_index);
            Cpu { y_index: r, flags: with_nz(cpu.flags, r), ..cpu }
        },
        ImpliedOp::Nop => cpu,
        ImpliedOp::Tax => Cpu {
            x_index: cpu.accumulator,
            flags: with_nz(cpu.flags, cpu.accumulator),
            ..cpu
        },
        ImpliedOp::Tay => Cpu {
            y_index: cpu.accumulator,
            flags: with_nz(cpu.flags, cpu.accumulator),
            ..cpu
        },
        ImpliedOp::Tsx => Cpu {
            x_index: cpu.stack_pointer,
            flags: with_nz(cpu.flags, cpu.stack_pointer),
            ..cpu
        },
        ImpliedOp::Txa => Cpu {
            accumulator: cpu.x_index,
            flags: with_nz(cpu.flags, cpu.x_index),
            ..cpu
        },
        ImpliedOp::Txs => Cpu { stack_pointer: cpu.x_index, ..cpu },
        ImpliedOp::Tya => Cpu {
            accumulator: cpu.y_index,
            flags: with_nz(cpu.flags, cpu.y_index),
            ..cpu
        },
    }
}

/// Apply a one-byte instruction, exactly as `apply_implied_op` describes.
#[verifier::rlimit(100)]
pub fn exec_implied_op(cpu: &mut Cpu, op: ImpliedOp)
    ensures
        *final(cpu) == apply_implied_op(*old(cpu), op),
{
    proof {
        reveal(crate::instructions::apply_implied_op);
    }
    match op {
        ImpliedOp::Clc => {
            cpu.flags = StatusFlags { carry: false, ..cpu.flags };
        },
        ImpliedOp::Cld => {
            cpu.flags = StatusFlags { decimal: false, ..cpu.flags };
        },
        ImpliedOp::Cli => {
            cpu.flags = StatusFlags { interrupt_disable: false, ..cpu.flags };
        },
        ImpliedOp::Clv => {
            cpu.flags = StatusFlags { overflow: false, ..cpu.flags };
        },
        ImpliedOp::Sec => {
            cpu.flags = StatusFlags { carry: true, ..cpu.flags };
        },
        ImpliedOp::Sed => {
            cpu.flags = StatusFlags { decimal: true, ..cpu.flags };
        },
        ImpliedOp::Sei => {
            cpu.flags = StatusFlags { interrupt_disable: true, ..cpu.flags };
        },
        ImpliedOp::Dex => {
            let r = cpu.x_index.wrapping_sub(1);
            cpu.flags = nz_flags(cpu.flags, r);
            cpu.x_index = r;
        },
        ImpliedOp::Dey => {
            let r = cpu.y_index.wrapping_sub(1);
            cpu.flags = nz_flags(cpu.flags, r);
            cpu.y_index = r;
        },
        ImpliedOp::Inx => {
            let r = cpu.x_index.wrapping_add(1);
            cpu.flags = nz_flags(cpu.flags, r);
            cpu.x_index = r;
        },
        ImpliedOp::Iny => {
            let r = cpu.y_index.wrapping_add(1);
            cpu.flags = nz_flags(cpu.flags, r);
            cpu.y_index = r;
        },
        ImpliedOp::Nop => {},
        ImpliedOp::Tax => {
            cpu.flags = nz_flags(cpu.flags, cpu.accumulator);
            cpu.x_index = cpu.accumulator;
        },
        ImpliedOp::Tay => {
            cpu.flags = nz_flags(cpu.flags, cpu.accumulator);
            cpu.y_index = cpu.accumulator;
        },
        ImpliedOp::Tsx => {
            cpu.flags = nz_flags(cpu.flags, cpu.stack_pointer);
            cpu.x_index = cpu.stack_pointer;
        },
        ImpliedOp::Txa => {
            cpu.flags = nz_flags(cpu.flags, cpu.x_index);
            cpu.accumulator = cpu.x_index;
        },
        ImpliedOp::Txs => {
            cpu.stack_pointer = cpu.x_index;
        },
        ImpliedOp::Tya => {
            cpu.flags = nz_flags(cpu.flags, cpu.y_index);
            cpu.accumulator = cpu.y_index;
        },
    }
}


/// A read operation touches only registers and flags: the program counter,
/// cycle counter, opcode and addressing scratch pass through unchanged.
pub broadcast proof fn lemma_read_op_scratch_frame(cpu: Cpu, op: ReadOp, m: u8)
    ensures
        (#[trigger] apply_read_op(cpu, op, m)).program_counter == cpu.program_counter,
        apply_read_op(cpu, op, m).current_cycle == cpu.current_cycle,
        apply_read_op(cpu, op, m).current_opcode == cpu.current_opcode,
        apply_read_op(cpu, op, m).effective_address == cpu.effective_address,
        apply_read_op(cpu, op, m).pointer_address == cpu.pointer_address,
        apply_read_op(cpu, op, m).internal_flags == cpu.internal_flags,
        apply_read_op(cpu, op, m).stack_pointer == cpu.stack_pointer,
{
    reveal(crate::instructions::apply_read_op);
}

/// A one-byte instruction touches only registers and flags: the program
/// counter, cycle counter, opcode and addressing scratch pass through.
pub broadcast proof fn lemma_implied_op_scratch_frame(cpu: Cpu, op: ImpliedOp)
    ensures
        (#[trigger] apply_implied_op(cpu, op)).program_counter == cpu.program_counter,
        apply_implied_op(cpu, op).current_cycle == cpu.current_cycle,
        apply_implied_op(cpu, op).current_opcode == cpu.current_opcode,
        apply_implied_op(cpu, op).effective_address == cpu.effective_address,
        apply_implied_op(cpu, op).pointer_address == cpu.pointer_address,
        apply_implied_op(cpu, op).internal_flags == cpu.internal_flags,
{
    reveal(crate::instructions::apply_implied_op);
}

} // verus!
