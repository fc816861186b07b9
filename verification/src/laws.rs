//! What holds of the machine whatever state it is in.

use vstd::prelude::*;
use crate::bits::{lemma_complement, lemma_sign_bits};
use crate::cpu::CPU;
use crate::cpu_opcodes::{base_cost, is_branch, OperationImplied};
use crate::machine::{bit, page_of, signed, stack_addr, wrap16, wrap8, Machine};
use crate::main_bus::{lemma_mapped_readable, next_addr, ram_index};

verus! {

/// On a bus whose mapper answers the whole program window the processor can
/// read whatever an instruction or a cycle asks for.
pub proof fn lemma_mapped_reads_everything(m: Machine)
    requires
        m.bus.mapped(),
    ensures
        forall|addr: u16| #[trigger] m.readable(addr),
        forall|addr: u16| #[trigger] m.readable16(addr),
        forall|op: OperationImplied| #[trigger] m.implied_readable(op),
        forall|opcode: u8| #[trigger] m.branch_readable(opcode),
        forall|opcode: u8| #[trigger] m.type1_readable(opcode),
        forall|opcode: u8| #[trigger] m.type2_readable(opcode),
        forall|opcode: u8| #[trigger] m.execute_readable(opcode),
        m.step_readable(),
{
    assert forall|addr: u16| #[trigger] m.bus.readable(addr) by {
        lemma_mapped_readable(m.bus, addr);
    }
    assert forall|addr: u16| #[trigger] m.bus.readable16(addr) by {
        lemma_mapped_readable(m.bus, addr);
    }
}

/// The stack lies in work RAM, and no two stack pointers name the same
/// cell of it.
pub proof fn lemma_stack_cell(sp: u8)
    ensures
        stack_addr(sp) < 0x2000,
        ram_index(stack_addr(sp)) == 0x100 + sp,
{
}

/// A pull that follows a push returns the byte that was pushed and leaves
/// the processor as it was before the push, the stack pointer with it.
pub proof fn lemma_push_pull_round_trip(m: Machine, value: u8)
    requires
        m.bus.wf(),
    ensures
        m.push(value).top() == value,
        m.push(value).pulled().cpu == m.cpu,
{
    lemma_stack_cell(m.cpu.r_sp);
}

/// After `n` pushes, for `n` up to 256, the stack pointer stands `n` below
/// where it stood, modulo 256.
pub proof fn lemma_push_n_pointer(m: Machine, value: u8, n: nat)
    requires
        n <= 256,
    ensures
        m.push_n(value, n).cpu.r_sp == if m.cpu.r_sp >= n {
            m.cpu.r_sp - n
        } else {
            m.cpu.r_sp - n + 256
        },
    decreases n,
{
    if n > 0 {
        lemma_push_n_pointer(m.push(value), value, (n - 1) as nat);
    }
}

/// Pushing 256 bytes brings the stack pointer back to where it started.
pub proof fn lemma_push_256_wraps(m: Machine, value: u8)
    ensures
        m.push_n(value, 256).cpu.r_sp == m.cpu.r_sp,
{
    lemma_push_n_pointer(m, value, 256);
}

/// The eight branch opcodes cost two cycles each, and none of them is an
/// instruction of the implied group.
pub proof fn lemma_branch_opcodes(opcode: u8)
    requires
        is_branch(opcode),
    ensures
        base_cost(opcode) == 2,
        OperationImplied::spec_from(opcode) == OperationImplied::Unknown,
        Machine::recognizes(opcode),
{
    reveal(base_cost);
    assert(opcode == 0x10 || opcode == 0x30 || opcode == 0x50 || opcode == 0x70 || opcode == 0x90
        || opcode == 0xB0 || opcode == 0xD0 || opcode == 0xF0);
}

/// A cycle that fetches a branch leaves the processor owing the base cost of
/// the branch if the branch is not taken, one cycle more if it is taken
/// within the page of the address behind the branch, and two more if it is
/// taken into another page.
pub proof fn lemma_branch_timing(m: Machine)
    requires
        m.ready(),
        is_branch(m.opcode()),
    ensures
        m.step().cpu.m_skip_cycles == base_cost(m.opcode()) + if !m.fetched().branch_taken(
            m.opcode(),
        ) {
            0int
        } else if page_of(next_addr(m.fetched().cpu.r_pc)) == page_of(
            m.fetched().branch_target(),
        ) {
            1int
        } else {
            2int
        },
{
    lemma_branch_opcodes(m.opcode());
}

/// Addition with carry sets Overflow exactly when the sum of the operands,
/// read as signed bytes, and the carry lies outside -128..=127.
pub proof fn lemma_adc_overflow_is_signed(cpu: CPU, operand: u8)
    ensures
        cpu.adc(operand).f_v == !(-128 <= signed(cpu.r_a) + signed(operand) + bit(cpu.f_c) <= 127),
{
    lemma_sign_bits(cpu.r_a, operand, wrap8(cpu.r_a + operand + bit(cpu.f_c)));
}

/// Subtraction with borrow is addition with carry of the complement of the
/// operand: result and flags are the same.
pub proof fn lemma_sbc_is_adc_of_complement(cpu: CPU, operand: u8)
    ensures
        cpu.sbc(operand) == cpu.adc(!operand),
{
    lemma_complement(operand);
}

/// Subtraction with borrow sets Overflow exactly when the difference of the
/// operands, read as signed bytes, less the borrow lies outside -128..=127.
pub proof fn lemma_sbc_overflow_is_signed(cpu: CPU, operand: u8)
    ensures
        cpu.sbc(operand).f_v == !(-128 <= signed(cpu.r_a) - signed(operand) - (1 - bit(cpu.f_c))
            <= 127),
{
    lemma_complement(operand);
    lemma_sign_bits(cpu.r_a, !operand, wrap8(cpu.r_a - operand - (1 - bit(cpu.f_c))));
}

/// The flags survive the way through the status byte.
pub proof fn lemma_status_round_trip(cpu: CPU, other: CPU)
    ensures
        cpu.with_status(cpu.status()) == cpu,
        other.with_status(cpu.status()).status() == cpu.status(),
{
}

/// A return that follows a call goes on behind the two operand bytes of the
/// call and leaves the stack pointer where it was before the call.
pub proof fn lemma_call_and_return(m: Machine)
    requires
        m.bus.wf(),
    ensures
        m.jsr().rts().cpu == (CPU { r_pc: wrap16(m.cpu.r_pc + 2), ..m.cpu }),
{
    lemma_stack_cell(m.cpu.r_sp);
    lemma_stack_cell(wrap8(m.cpu.r_sp - 1));
}

} // verus!
