//! The processor: registers, flags and cycle counters, and the
//! fetch-decode-execute engine that runs on a bus lent to it for each call.

use vstd::prelude::*;
use crate::bits::{
    lemma_difference_bits, lemma_end_bits, lemma_opcode_fields, lemma_page_or, lemma_shift_left,
    lemma_shift_right, lemma_signed_byte, lemma_split_word, lemma_stack_addr, lemma_status_bits,
    lemma_sum_bits, lemma_word_bits, lemma_wrap_target,
};
use crate::chip::{Address, Byte};
use crate::cpu_opcodes::{
    base_cycles, group_bits, is_branch, AddressingMode1, AddressingMode2, BranchOnFlag, Operation1,
    Operation2, OperationImplied, ADDR_MODE_MASK, ADDR_MODE_SHIFT, BRANCH_CONDITION_MASK,
    BRANCH_INSTRUCTION_MASK, BRANCH_INSTRUCTION_MASK_RESULT, BRANCH_ON_FLAG_SHIFT,
    INSTRUCTION_MODE_MASK, OPERATION_MASK, OPERATION_SHIFT, RESET_VECTOR,
};
use crate::machine::{page_of, shifted_left, shifted_right, signed, wrap16, wrap8, Machine};
use crate::main_bus::{next_addr, MainBus};

verus! {

/// The registers, flags and cycle counters of the processor.
#[derive(Clone, Copy, Debug, PartialEq, Eq)]
pub struct CPU {
    pub r_a: u8,
    pub r_x: u8,
    pub r_y: u8,
    pub r_sp: u8,
    pub r_pc: Address,
    pub m_skip_cycles: u32,
    pub m_cycles: u32,
    pub f_i: bool,
    pub f_c: bool,
    pub f_d: bool,
    pub f_n: bool,
    pub f_v: bool,
    pub f_z: bool,
}

/// What one clock cycle did.
#[derive(Clone, Copy, Debug, PartialEq, Eq)]
pub enum StepEvent {
    /// The cycle went to an instruction that was dispatched earlier.
    Busy,
    /// The opcode was fetched and its instruction carried out.
    Executed(u8),
    /// The opcode was fetched and its instruction carried out; the byte that
    /// it wrote went to program ROM, and the mapper refused it.
    StoreRefused { opcode: u8, addr: Address, value: Byte },
    /// The opcode was fetched and nothing was carried out: it has no cost or
    /// stands for no instruction.
    Unrecognized(u8),
}

/// The pair of a processor and the contents of a bus.
pub open spec fn machine(cpu: CPU, bus: MainBus) -> Machine {
    Machine { cpu, bus: bus@ }
}

impl CPU {
    /// A processor in the startup state, its program counter at zero.
    pub fn new() -> (cpu: CPU)
        ensures
            cpu == CPU::reset_state(0),
    {
        CPU {
            r_a: 0,
            r_x: 0,
            r_y: 0,
            r_sp: 0xfd,
            r_pc: 0,
            m_skip_cycles: 0,
            m_cycles: 0,
            f_i: true,
            f_c: false,
            f_d: false,
            f_n: false,
            f_v: false,
            f_z: false,
        }
    }

    /// Starts over at the address that the reset vector holds.
    pub fn reset(&mut self, bus: &MainBus)
        requires
            bus@.wf(),
            bus@.readable16(0xFFFC),
        ensures
            *final(self) == CPU::reset_state(bus@.read_address16(0xFFFC)),
            final(self).r_pc == (bus@.read(0xFFFC) as u16) | ((bus@.read(0xFFFD) as u16) << 8),
    {
        let addr = self.read_address(bus, RESET_VECTOR);
        proof {
            lemma_word_bits(bus@.read(0xFFFC), bus@.read(0xFFFD));
        }
        self.reset_with_start_addr(addr);
    }

    /// Reads the little-endian word at `addr`.
    pub fn read_address(&self, bus: &MainBus, addr: Address) -> (value: Address)
        requires
            bus@.wf(),
            bus@.readable16(addr),
        ensures
            value == bus@.read_address16(addr),
    {
        bus.read_address16(addr)
    }

    /// Starts over at `start_addr`: registers and counters zeroed, the
    /// stack pointer at 0xFD, Interrupt-disable set and the other flags
    /// clear.
    pub fn reset_with_start_addr(&mut self, start_addr: Address)
        ensures
            *final(self) == CPU::reset_state(start_addr),
    {
        *self = CPU {
            r_a: 0,
            r_x: 0,
            r_y: 0,
            r_sp: 0xfd,  // documented startup state
            r_pc: start_addr,
            m_skip_cycles: 0,
            m_cycles: 0,
            f_i: true,
            f_c: false,
            f_d: false,
            f_n: false,
            f_v: false,
            f_z: false,
        };
    }

    /// Writes `val` where the stack pointer points and moves the pointer
    /// down, from 0x00 to 0xFF.
    pub fn push_stack(&mut self, bus: &mut MainBus, val: Byte)
        requires
            old(bus)@.wf(),
        ensures
            machine(*final(self), *final(bus)) == machine(*old(self), *old(bus)).push(val),
            final(bus)@.wf(),
            final(bus)@.keeps_devices(old(bus)@),
    {
        proof {
            lemma_stack_addr(self.r_sp);
        }
        // The stack lies in work RAM, which refuses no byte.
        bus.write(0x100 | self.r_sp as Address, val);
        self.r_sp = self.r_sp.wrapping_sub(1);
    }

    /// Moves the stack pointer up, from 0xFF to 0x00, and reads where it
    /// points then.
    pub fn pull_stack(&mut self, bus: &MainBus) -> (val: Byte)
        requires
            bus@.wf(),
        ensures
            val == machine(*old(self), *bus).top(),
            machine(*final(self), *bus) == machine(*old(self), *bus).pulled(),
    {
        self.r_sp = self.r_sp.wrapping_add(1);
        proof {
            lemma_stack_addr(self.r_sp);
        }
        bus.read(0x100 | self.r_sp as Address)
    }

    /// Sets Zero if `value` is zero, and Negative if its bit 7 is set.
    pub fn set_zn(&mut self, value: u8)
        ensures
            *final(self) == old(self).with_zn(value),
    {
        proof {
            lemma_end_bits(value);
        }
        self.f_z = value == 0;
        self.f_n = (value & 0x80) != 0;
    }

    /// Owes `inc` more cycles if `a` and `b` lie in different pages.
    pub fn set_page_crossed(&mut self, a: Address, b: Address, inc: u32)
        requires
            page_of(a) != page_of(b) ==> old(self).m_skip_cycles + inc <= u32::MAX,
        ensures
            *final(self) == old(self).with_page_crossed(a, b, inc),
    {
        proof {
            lemma_split_word(a);
            lemma_split_word(b);
        }
        // Page is determined by the high byte
        if (a & 0xff00) != (b & 0xff00) {
            self.m_skip_cycles += inc;
        }
    }

    /// The flags as the byte that goes on the stack, bits 4 and 5 set.
    pub fn status_byte(&self) -> (flags: u8)
        ensures
            flags == self.status(),
    {
        let mut flags: u8 = 0x30;
        if self.f_n {
            flags += 0x80;
        }
        if self.f_v {
            flags += 0x40;
        }
        if self.f_d {
            flags += 0x08;
        }
        if self.f_i {
            flags += 0x04;
        }
        if self.f_z {
            flags += 0x02;
        }
        if self.f_c {
            flags += 0x01;
        }
        flags
    }

    /// Takes the flags from a byte that came off the stack.
    pub fn set_status_byte(&mut self, flags: u8)
        ensures
            *final(self) == old(self).with_status(flags),
    {
        proof {
            lemma_status_bits(flags);
        }
        *self = CPU {
            f_n: (flags & 0x80) != 0,
            f_v: (flags & 0x40) != 0,
            f_d: (flags & 0x8) != 0,
            f_i: (flags & 0x4) != 0,
            f_z: (flags & 0x2) != 0,
            f_c: (flags & 0x1) != 0,
            ..*self
        };
    }

    /// Writes `value` at `location` and hands back what the mapper refused.
    fn store(bus: &mut MainBus, location: Address, value: Byte) -> (refused: Option<
        (Address, Byte),
    >)
        requires
            old(bus)@.wf(),
        ensures
            final(bus)@ == old(bus)@.write(location, value),
            refused == Machine::refused(Some((location, value))),
            final(bus)@.wf(),
            final(bus)@.keeps_devices(old(bus)@),
    {
        if bus.write(location, value) {
            Some((location, value))
        } else {
            None
        }
    }

    /// Sets the accumulator, and Zero and Negative from it.
    fn set_a(&mut self, value: Byte)
        ensures
            *final(self) == old(self).with_a(value),
    {
        self.r_a = value;
        self.set_zn(value);
    }

    /// Sets the X index, and Zero and Negative from it.
    fn set_x(&mut self, value: Byte)
        ensures
            *final(self) == old(self).with_x(value),
    {
        self.r_x = value;
        self.set_zn(value);
    }

    /// Sets the Y index, and Zero and Negative from it.
    fn set_y(&mut self, value: Byte)
        ensures
            *final(self) == old(self).with_y(value),
    {
        self.r_y = value;
        self.set_zn(value);
    }

    /// Pushes the address of the last byte of the instruction, high byte
    /// first, and jumps to the address that follows the opcode.
    fn jump_to_subroutine(&mut self, bus: &mut MainBus)
        requires
            old(bus)@.wf(),
            old(bus)@.readable16(old(self).r_pc),
        ensures
            machine(*final(self), *final(bus)) == machine(*old(self), *old(bus)).jsr(),
            final(self).m_skip_cycles == old(self).m_skip_cycles,
            final(bus)@.wf(),
            final(bus)@.keeps_devices(old(bus)@),
    {
        // The address pushed is that of the next instruction less one: the
        // program counter still stands on the two bytes of the target.
        let ret = self.r_pc.wrapping_add(1);
        proof {
            lemma_split_word(ret);
        }
        self.push_stack(bus, (ret >> 8) as u8);
        self.push_stack(bus, #[verifier::truncate] (ret as u8));
        self.r_pc = self.read_address(bus, self.r_pc);
    }

    /// Pulls an address, low byte first, and goes on behind it.
    fn return_from_subroutine(&mut self, bus: &MainBus)
        requires
            bus@.wf(),
        ensures
            machine(*final(self), *bus) == machine(*old(self), *bus).rts(),
            final(self).m_skip_cycles == old(self).m_skip_cycles,
    {
        let lo = self.pull_stack(bus);
        let hi = self.pull_stack(bus);
        proof {
            lemma_word_bits(lo, hi);
        }
        self.r_pc = ((lo as Address) | ((hi as Address) << 8)).wrapping_add(1);
    }

    /// Pulls the flags, then an address, low byte first, and goes on there.
    fn return_from_interrupt(&mut self, bus: &MainBus)
        requires
            bus@.wf(),
        ensures
            machine(*final(self), *bus) == machine(*old(self), *bus).rti(),
            final(self).m_skip_cycles == old(self).m_skip_cycles,
    {
        let flags = self.pull_stack(bus);
        self.set_status_byte(flags);
        let lo = self.pull_stack(bus);
        let hi = self.pull_stack(bus);
        proof {
            lemma_word_bits(lo, hi);
        }
        self.r_pc = (lo as Address) | ((hi as Address) << 8);
    }

    /// Jumps to the address held at the address that follows the opcode.
    fn jump_indirect(&mut self, bus: &MainBus)
        requires
            bus@.wf(),
            machine(*old(self), *bus).implied_readable(OperationImplied::JMPI),
        ensures
            machine(*final(self), *bus) == machine(*old(self), *bus).jmp_indirect(),
            final(self).m_skip_cycles == old(self).m_skip_cycles,
    {
        let location = self.read_address(bus, self.r_pc);
        // The processor has a bug: where the vector begins at the last byte
        // of a page, its second byte is fetched from the beginning of that
        // page rather than the beginning of the next.
        let page = location & 0xff00;
        let next = location.wrapping_add(1) & 0xff;
        proof {
            lemma_split_word(location);
            lemma_split_word(location.wrapping_add(1));
            lemma_page_or(page, next);
        }
        let lo = bus.read(location);
        let hi = bus.read(page | next);
        proof {
            lemma_word_bits(lo, hi);
        }
        self.r_pc = (lo as Address) | ((hi as Address) << 8);
    }

    /// Pulls the flags.
    fn pull_status(&mut self, bus: &MainBus)
        requires
            bus@.wf(),
        ensures
            machine(*final(self), *bus) == machine(*old(self), *bus).plp(),
            final(self).m_skip_cycles == old(self).m_skip_cycles,
    {
        let flags = self.pull_stack(bus);
        self.set_status_byte(flags);
    }

    /// Pulls the accumulator.
    fn pull_accumulator(&mut self, bus: &MainBus)
        requires
            bus@.wf(),
        ensures
            machine(*final(self), *bus) == machine(*old(self), *bus).pulled().load_a(
                machine(*old(self), *bus).top(),
            ),
            final(self).m_skip_cycles == old(self).m_skip_cycles,
    {
        let value = self.pull_stack(bus);
        self.set_a(value);
    }

    /// Carries out `opcode` if it is one of the instructions known by their
    /// whole byte, and says whether it is.
    pub fn execute_implied(&mut self, bus: &mut MainBus, opcode: Byte) -> (recognized: bool)
        requires
            old(bus)@.wf(),
            machine(*old(self), *old(bus)).implied_readable(OperationImplied::spec_from(opcode)),
        ensures
            recognized == (OperationImplied::spec_from(opcode) != OperationImplied::Unknown),
            machine(*final(self), *final(bus)) == machine(*old(self), *old(bus)).implied(
                OperationImplied::spec_from(opcode),
            ),
            final(self).m_skip_cycles == old(self).m_skip_cycles,
            final(bus)@.wf(),
            final(bus)@.keeps_devices(old(bus)@),
    {
        match OperationImplied::from(opcode) {
            OperationImplied::NOP => (),
            OperationImplied::JSR => {
                self.jump_to_subroutine(bus);
            },
            OperationImplied::RTS => {
                self.return_from_subroutine(bus);
            },
            OperationImplied::RTI => {
                self.return_from_interrupt(bus);
            },
            OperationImplied::JMP => {
                self.r_pc = self.read_address(bus, self.r_pc);
            },
            OperationImplied::JMPI => {
                self.jump_indirect(bus);
            },
            OperationImplied::PHP => {
                let flags = self.status_byte();
                self.push_stack(bus, flags);
            },
            OperationImplied::PLP => {
                self.pull_status(bus);
            },
            OperationImplied::PHA => {
                self.push_stack(bus, self.r_a);
            },
            OperationImplied::PLA => {
                self.pull_accumulator(bus);
            },
            OperationImplied::DEY => {
                self.set_y(self.r_y.wrapping_sub(1));
            },
            OperationImplied::DEX => {
                self.set_x(self.r_x.wrapping_sub(1));
            },
            OperationImplied::TAY => {
                self.set_y(self.r_a);
            },
            OperationImplied::INY => {
                self.set_y(self.r_y.wrapping_add(1));
            },
            OperationImplied::INX => {
                self.set_x(self.r_x.wrapping_add(1));
            },
            OperationImplied::CLC => {
                self.f_c = false;
            },
            OperationImplied::SEC => {
                self.f_c = true;
            },
            OperationImplied::CLI => {
                self.f_i = false;
            },
            OperationImplied::SEI => {
                self.f_i = true;
            },
            OperationImplied::CLD => {
                self.f_d = false;
            },
            OperationImplied::SED => {
                self.f_d = true;
            },
            OperationImplied::TYA => {
                self.set_a(self.r_y);
            },
            OperationImplied::CLV => {
                self.f_v = false;
            },
            OperationImplied::TXA => {
                self.set_a(self.r_x);
            },
            OperationImplied::TXS => {
                self.r_sp = self.r_x;
            },
            OperationImplied::TAX => {
                self.set_x(self.r_a);
            },
            OperationImplied::TSX => {
                self.set_x(self.r_sp);
            },
            OperationImplied::Unknown => {
                return false;
            },
        }
        true
    }

    /// Carries out `opcode` if it is a conditional branch, and says whether
    /// it is.
    pub fn execute_branch(&mut self, bus: &MainBus, opcode: u8) -> (recognized: bool)
        requires
            bus@.wf(),
            machine(*old(self), *bus).branch_readable(opcode),
            old(self).m_skip_cycles + machine(*old(self), *bus).branch_cycles(opcode) <= u32::MAX,
        ensures
            recognized == is_branch(opcode),
            recognized ==> *final(self) == machine(*old(self), *bus).branch(opcode),
            !recognized ==> *final(self) == *old(self),
            final(self).m_skip_cycles == old(self).m_skip_cycles + machine(
                *old(self),
                *bus,
            ).branch_cycles(opcode),
    {
        proof {
            lemma_opcode_fields(opcode);
        }
        if (opcode & BRANCH_INSTRUCTION_MASK) == BRANCH_INSTRUCTION_MASK_RESULT {
            // Bit 5 holds the value of the flag on which the branch is taken.
            let on_set = (opcode & BRANCH_CONDITION_MASK) != 0;
            let flag = match BranchOnFlag::from(opcode >> BRANCH_ON_FLAG_SHIFT) {
                BranchOnFlag::Negative => self.f_n,
                BranchOnFlag::Overflow => self.f_v,
                BranchOnFlag::Carry => self.f_c,
                BranchOnFlag::Zero => self.f_z,
            };
            if on_set == flag {
                self.take_branch(bus);
            } else {
                self.r_pc = self.r_pc.wrapping_add(1);
            }
            return true;
        }
        false
    }

    /// The address that lies the signed `offset` away from `pc`.
    fn offset_address(pc: Address, offset: Byte) -> (target: Address)
        ensures
            target == wrap16(pc + signed(offset)),
    {
        let displacement = #[verifier::truncate]
        (offset as i8);
        let sum: i32 = pc as i32 + displacement as i32;
        proof {
            lemma_signed_byte(offset);
            lemma_wrap_target(sum);
        }
        #[verifier::truncate]
        (sum as Address)
    }

    /// Reads the signed byte at the program counter, goes that far from the
    /// address behind it, and owes the cycles of a taken branch.
    fn take_branch(&mut self, bus: &MainBus)
        requires
            bus@.wf(),
            bus@.readable(old(self).r_pc),
            old(self).m_skip_cycles < u32::MAX,
            page_of(next_addr(old(self).r_pc)) != page_of(
                machine(*old(self), *bus).branch_target(),
            ) ==> old(self).m_skip_cycles + 2 <= u32::MAX,
        ensures
            *final(self) == machine(*old(self), *bus).branch_taken_state(),
    {
        let offset = bus.read(self.r_pc);
        let next = self.r_pc.wrapping_add(1);
        let new_pc = Self::offset_address(next, offset);
        self.m_skip_cycles += 1;
        self.set_page_crossed(next, new_pc, 1);
        self.r_pc = new_pc;
    }

    /// Finds the operand address of an instruction of group 1 and moves the
    /// program counter behind the operand bytes.
    fn operand_address1(
        &mut self,
        bus: &MainBus,
        mode: AddressingMode1,
        op: &Operation1,
    ) -> (location: Address)
        requires
            bus@.wf(),
            machine(*old(self), *bus).address1_readable(mode),
            machine(*old(self), *bus).crosses1(mode, *op) ==> old(self).m_skip_cycles < u32::MAX,
        ensures
            location == machine(*old(self), *bus).address1(mode),
            *final(self) == machine(*old(self), *bus).fetched1(mode, *op),
            final(self).m_skip_cycles == old(self).m_skip_cycles + if machine(
                *old(self),
                *bus,
            ).crosses1(mode, *op) {
                1int
            } else {
                0int
            },
    {
        match mode {
            AddressingMode1::IndexedIndirectX => {
                let zero_addr = self.r_x.wrapping_add(bus.read(self.r_pc));
                let lo = bus.read(zero_addr as Address);
                let hi = bus.read(zero_addr.wrapping_add(1) as Address);
                proof {
                    lemma_word_bits(lo, hi);
                }
                self.r_pc = self.r_pc.wrapping_add(1);
                (lo as Address) | ((hi as Address) << 8)
            },
            AddressingMode1::ZeroPage => {
                let location = bus.read(self.r_pc) as Address;
                self.r_pc = self.r_pc.wrapping_add(1);
                location
            },
            AddressingMode1::Immediate => {
                let location = self.r_pc;
                self.r_pc = self.r_pc.wrapping_add(1);
                location
            },
            AddressingMode1::Absolute => {
                let location = self.read_address(bus, self.r_pc);
                self.r_pc = self.r_pc.wrapping_add(2);
                location
            },
            AddressingMode1::IndirectY => {
                let base = self.indirect_base(bus);
                let location = base.wrapping_add(self.r_y as Address);
                if *op != Operation1::STA {
                    self.set_page_crossed(base, location, 1);
                }
                self.r_pc = self.r_pc.wrapping_add(1);
                location
            },
            AddressingMode1::IndexedX => {
                let location = bus.read(self.r_pc).wrapping_add(self.r_x) as Address;
                self.r_pc = self.r_pc.wrapping_add(1);
                location
            },
            AddressingMode1::AbsoluteY => {
                let base = self.read_address(bus, self.r_pc);
                let location = base.wrapping_add(self.r_y as Address);
                if *op != Operation1::STA {
                    self.set_page_crossed(base, location, 1);
                }
                self.r_pc = self.r_pc.wrapping_add(2);
                location
            },
            AddressingMode1::AbsoluteX => {
                let base = self.read_address(bus, self.r_pc);
                let location = base.wrapping_add(self.r_x as Address);
                if *op != Operation1::STA {
                    self.set_page_crossed(base, location, 1);
                }
                self.r_pc = self.r_pc.wrapping_add(2);
                location
            },
        }
    }

    /// The address that the indirect mode with Y adds Y to.
    fn indirect_base(&self, bus: &MainBus) -> (base: Address)
        requires
            bus@.wf(),
            machine(*self, *bus).address1_readable(AddressingMode1::IndirectY),
        ensures
            base == machine(*self, *bus).indirect_base(self.r_pc),
    {
        let zero_addr = bus.read(self.r_pc);
        let lo = bus.read(zero_addr as Address);
        let hi = bus.read(zero_addr.wrapping_add(1) as Address);
        proof {
            lemma_word_bits(lo, hi);
        }
        (lo as Address) | ((hi as Address) << 8)
    }

    /// Adds the operand and the carry to the accumulator.
    fn add_with_carry(&mut self, operand: Byte)
        ensures
            *final(self) == old(self).adc(operand),
    {
        let carry: u16 = if self.f_c {
            1
        } else {
            0
        };
        let sum: u16 = self.r_a as u16 + operand as u16 + carry;
        proof {
            lemma_sum_bits(sum);
        }
        let result = #[verifier::truncate]
        (sum as u8);
        self.f_c = (sum & 0x100) != 0;
        self.f_v = (self.r_a ^ result) & (operand ^ result) & 0x80 != 0;
        self.set_a(result);
    }

    /// Takes the operand and the borrow away from the accumulator.
    fn subtract_with_borrow(&mut self, subtrahend: Byte)
        ensures
            *final(self) == old(self).sbc(subtrahend),
    {
        let borrow: i16 = if self.f_c {
            0
        } else {
            1
        };
        let diff: i16 = self.r_a as i16 - subtrahend as i16 - borrow;
        proof {
            lemma_difference_bits(diff);
        }
        let result = #[verifier::truncate]
        (diff as u8);
        self.f_c = !((diff & 0x100) != 0);
        self.f_v = (self.r_a ^ result) & (!subtrahend ^ result) & 0x80 != 0;
        self.set_a(result);
    }

    /// Sets the flags as a subtraction of the operand from the accumulator
    /// would, and keeps the accumulator.
    fn compare(&mut self, operand: Byte)
        ensures
            *final(self) == old(self).compared(operand),
    {
        let diff: i16 = self.r_a as i16 - operand as i16;
        proof {
            lemma_difference_bits(diff);
        }
        self.f_c = !((diff & 0x100) != 0);
        self.set_zn(#[verifier::truncate] (diff as u8));
    }

    /// Carries out an operation of group 1 on the operand at `location`.
    fn apply_operation1(
        &mut self,
        bus: &mut MainBus,
        op: Operation1,
        location: Address,
    ) -> (refused: Option<(Address, Byte)>)
        requires
            old(bus)@.wf(),
            op != Operation1::STA ==> old(bus)@.readable(location),
        ensures
            machine(*final(self), *final(bus)) == machine(*old(self), *old(bus)).apply1(
                op,
                location,
            ),
            refused == Machine::refused(
                if op == Operation1::STA {
                    Some((location, old(self).r_a))
                } else {
                    None
                },
            ),
            final(self).m_skip_cycles == old(self).m_skip_cycles,
            final(bus)@.wf(),
            final(bus)@.keeps_devices(old(bus)@),
    {
        match op {
            Operation1::ORA => {
                let operand = bus.read(location);
                self.set_a(self.r_a | operand);
            },
            Operation1::AND => {
                let operand = bus.read(location);
                self.set_a(self.r_a & operand);
            },
            Operation1::EOR => {
                let operand = bus.read(location);
                self.set_a(self.r_a ^ operand);
            },
            Operation1::ADC => {
                let operand = bus.read(location);
                self.add_with_carry(operand);
            },
            Operation1::STA => {
                return Self::store(bus, location, self.r_a);
            },
            Operation1::LDA => {
                let operand = bus.read(location);
                self.set_a(operand);
            },
            Operation1::SBC => {
                let subtrahend = bus.read(location);
                self.subtract_with_borrow(subtrahend);
            },
            Operation1::CMP => {
                let operand = bus.read(location);
                self.compare(operand);
            },
        }
        None
    }

    /// Carries out `opcode` if it belongs to group 1; says whether it does,
    /// and hands back the write that the mapper refused.
    fn run_type1(&mut self, bus: &mut MainBus, opcode: u8) -> (out: (
        bool,
        Option<(Address, Byte)>,
    ))
        requires
            old(bus)@.wf(),
            machine(*old(self), *old(bus)).type1_readable(opcode),
            old(self).m_skip_cycles + machine(*old(self), *old(bus)).type1_cycles(opcode)
                <= u32::MAX,
        ensures
            out.0 == (group_bits(opcode) == 1),
            out.0 ==> machine(*final(self), *final(bus)) == machine(
                *old(self),
                *old(bus),
            ).type1(opcode),
            !out.0 ==> *final(self) == *old(self) && final(bus)@ == old(bus)@,
            out.1 == Machine::refused(machine(*old(self), *old(bus)).store1(opcode)),
            final(self).m_skip_cycles == old(self).m_skip_cycles + machine(
                *old(self),
                *old(bus),
            ).type1_cycles(opcode),
            final(bus)@.wf(),
            final(bus)@.keeps_devices(old(bus)@),
    {
        proof {
            lemma_opcode_fields(opcode);
        }
        if (opcode & INSTRUCTION_MODE_MASK) == 0x1 {
            let op = Operation1::from((opcode & OPERATION_MASK) >> OPERATION_SHIFT);
            let addressing_mode = AddressingMode1::from(
                (opcode & ADDR_MODE_MASK) >> ADDR_MODE_SHIFT,
            );
            let location = self.operand_address1(bus, addressing_mode, &op);
            let refused = self.apply_operation1(bus, op, location);
            return (true, refused);
        }
        (false, None)
    }

    /// Carries out `opcode` if it belongs to group 1, and says whether it
    /// does.
    pub fn execute_type1(&mut self, bus: &mut MainBus, opcode: u8) -> (recognized: bool)
        requires
            old(bus)@.wf(),
            machine(*old(self), *old(bus)).type1_readable(opcode),
            old(self).m_skip_cycles + machine(*old(self), *old(bus)).type1_cycles(opcode)
                <= u32::MAX,
        ensures
            recognized == (group_bits(opcode) == 1),
            recognized ==> machine(*final(self), *final(bus)) == machine(
                *old(self),
                *old(bus),
            ).type1(opcode),
            !recognized ==> *final(self) == *old(self) && final(bus)@ == old(bus)@,
            final(self).m_skip_cycles == old(self).m_skip_cycles + machine(
                *old(self),
                *old(bus),
            ).type1_cycles(opcode),
            final(bus)@.wf(),
            final(bus)@.keeps_devices(old(bus)@),
    {
        self.run_type1(bus, opcode).0
    }

    /// Finds the operand address of an instruction of group 2 and moves the
    /// program counter behind the operand bytes.
    fn operand_address2(
        &mut self,
        bus: &MainBus,
        mode: &AddressingMode2,
        op: &Operation2,
    ) -> (location: Address)
        requires
            bus@.wf(),
            machine(*old(self), *bus).address2_readable(*mode),
            machine(*old(self), *bus).crosses2(*mode, *op) ==> old(self).m_skip_cycles < u32::MAX,
        ensures
            location == machine(*old(self), *bus).address2(*mode, *op),
            *final(self) == machine(*old(self), *bus).fetched2(*mode, *op),
            final(self).m_skip_cycles == old(self).m_skip_cycles + if machine(
                *old(self),
                *bus,
            ).crosses2(*mode, *op) {
                1int
            } else {
                0int
            },
    {
        match mode {
            AddressingMode2::Immediate_ => {
                let location = self.r_pc;
                self.r_pc = self.r_pc.wrapping_add(1);
                location
            },
            AddressingMode2::ZeroPage_ => {
                let location = bus.read(self.r_pc) as Address;
                self.r_pc = self.r_pc.wrapping_add(1);
                location
            },
            AddressingMode2::Accumulator => 0,
            AddressingMode2::Absolute_ => {
                let location = self.read_address(bus, self.r_pc);
                self.r_pc = self.r_pc.wrapping_add(2);
                location
            },
            AddressingMode2::Indexed => {
                // The loads and stores of X take Y as their index.
                let index: Byte = if *op == Operation2::LDX || *op == Operation2::STX {
                    self.r_y
                } else {
                    self.r_x
                };
                let location = bus.read(self.r_pc).wrapping_add(index) as Address;
                self.r_pc = self.r_pc.wrapping_add(1);
                location
            },
            AddressingMode2::AbsoluteIndexed => {
                let base = self.read_address(bus, self.r_pc);
                let index: Byte = if *op == Operation2::LDX || *op == Operation2::STX {
                    self.r_y
                } else {
                    self.r_x
                };
                let location = base.wrapping_add(index as Address);
                self.set_page_crossed(base, location, 1);
                self.r_pc = self.r_pc.wrapping_add(2);
                location
            },
        }
    }

    /// `value` moved by one bit, to the right if `right`, with `carry_in`
    /// coming into the vacated bit, and the bit that drops out.
    fn shifted(value: Byte, right: bool, carry_in: bool) -> (out: (Byte, bool))
        ensures
            out.0 == if right {
                shifted_right(value, carry_in)
            } else {
                shifted_left(value, carry_in)
            },
            out.1 == if right {
                value % 2 == 1
            } else {
                value >= 0x80
            },
    {
        let carry: Byte = if carry_in {
            1
        } else {
            0
        };
        proof {
            lemma_end_bits(value);
            lemma_shift_left(value, carry);
            lemma_shift_right(value, carry);
        }
        if right {
            ((value >> 1) | (carry << 7), (value & 1) != 0)
        } else {
            ((value << 1) | carry, (value & 0x80) != 0)
        }
    }

    /// Shifts or rotates the accumulator or the byte at `location` by one
    /// bit.
    fn shift(
        &mut self,
        bus: &mut MainBus,
        right: bool,
        carry_in: bool,
        mode: &AddressingMode2,
        location: Address,
    ) -> (refused: Option<(Address, Byte)>)
        requires
            old(bus)@.wf(),
            *mode != AddressingMode2::Accumulator ==> old(bus)@.readable(location),
        ensures
            machine(*final(self), *final(bus)) == machine(*old(self), *old(bus)).shift(
                right,
                carry_in,
                *mode,
                location,
            ),
            refused == Machine::refused(
                if *mode != AddressingMode2::Accumulator {
                    Some(
                        (
                            location,
                            if right {
                                shifted_right(old(bus)@.read(location), carry_in)
                            } else {
                                shifted_left(old(bus)@.read(location), carry_in)
                            },
                        ),
                    )
                } else {
                    None
                },
            ),
            final(self).m_skip_cycles == old(self).m_skip_cycles,
            final(bus)@.wf(),
            final(bus)@.keeps_devices(old(bus)@),
    {
        if *mode == AddressingMode2::Accumulator {
            let (result, carry_out) = Self::shifted(self.r_a, right, carry_in);
            self.f_c = carry_out;
            self.set_a(result);
            None
        } else {
            let (result, carry_out) = Self::shifted(bus.read(location), right, carry_in);
            self.f_c = carry_out;
            self.set_zn(result);
            Self::store(bus, location, result)
        }
    }

    /// Takes one from the byte at `location`, or adds one to it.
    fn step_memory(&mut self, bus: &mut MainBus, location: Address, up: bool) -> (refused: Option<
        (Address, Byte),
    >)
        requires
            old(bus)@.wf(),
            old(bus)@.readable(location),
        ensures
            machine(*final(self), *final(bus)) == machine(*old(self), *old(bus)).stepped(
                location,
                if up {
                    1
                } else {
                    -1
                },
            ),
            refused == Machine::refused(
                Some(
                    (
                        location,
                        wrap8(
                            old(bus)@.read(location) + if up {
                                1int
                            } else {
                                -1int
                            },
                        ),
                    ),
                ),
            ),
            final(self).m_skip_cycles == old(self).m_skip_cycles,
            final(bus)@.wf(),
            final(bus)@.keeps_devices(old(bus)@),
    {
        let tmp = if up {
            bus.read(location).wrapping_add(1)
        } else {
            bus.read(location).wrapping_sub(1)
        };
        self.set_zn(tmp);
        Self::store(bus, location, tmp)
    }

    /// Carries out an operation of group 2 on the operand at `location`.
    fn apply_operation2(
        &mut self,
        bus: &mut MainBus,
        op: Operation2,
        mode: &AddressingMode2,
        location: Address,
    ) -> (refused: Option<(Address, Byte)>)
        requires
            old(bus)@.wf(),
            Machine::reads_operand2(op, *mode) ==> old(bus)@.readable(location),
        ensures
            machine(*final(self), *final(bus)) == machine(*old(self), *old(bus)).apply2(
                op,
                *mode,
                location,
            ),
            refused == Machine::refused(
                machine(*old(self), *old(bus)).written2(op, *mode, location),
            ),
            final(self).m_skip_cycles == old(self).m_skip_cycles,
            final(bus)@.wf(),
            final(bus)@.keeps_devices(old(bus)@),
    {
        match op {
            Operation2::ASL => self.shift(bus, false, false, mode, location),
            Operation2::ROL => self.shift(bus, false, self.f_c, mode, location),
            Operation2::LSR => self.shift(bus, true, false, mode, location),
            Operation2::ROR => self.shift(bus, true, self.f_c, mode, location),
            Operation2::STX => Self::store(bus, location, self.r_x),
            Operation2::LDX => {
                let operand = bus.read(location);
                self.set_x(operand);
                None
            },
            Operation2::DEC => self.step_memory(bus, location, false),
            Operation2::INC => self.step_memory(bus, location, true),
        }
    }

    /// Carries out `opcode` if it belongs to group 2 and names one of its
    /// addressing modes; says whether it does, and hands back the write that
    /// the mapper refused.
    fn run_type2(&mut self, bus: &mut MainBus, opcode: u8) -> (out: (
        bool,
        Option<(Address, Byte)>,
    ))
        requires
            old(bus)@.wf(),
            machine(*old(self), *old(bus)).type2_readable(opcode),
            old(self).m_skip_cycles + machine(*old(self), *old(bus)).type2_cycles(opcode)
                <= u32::MAX,
        ensures
            out.0 == Machine::recognizes2(opcode),
            out.0 ==> machine(*final(self), *final(bus)) == machine(
                *old(self),
                *old(bus),
            ).type2(opcode),
            !out.0 ==> *final(self) == *old(self) && final(bus)@ == old(bus)@,
            out.1 == Machine::refused(machine(*old(self), *old(bus)).store2(opcode)),
            final(self).m_skip_cycles == old(self).m_skip_cycles + machine(
                *old(self),
                *old(bus),
            ).type2_cycles(opcode),
            final(bus)@.wf(),
            final(bus)@.keeps_devices(old(bus)@),
    {
        proof {
            lemma_opcode_fields(opcode);
        }
        if (opcode & INSTRUCTION_MODE_MASK) == 2 {
            let mode_bits = (opcode & ADDR_MODE_MASK) >> ADDR_MODE_SHIFT;
            if mode_bits == 4 || mode_bits == 6 {
                return (false, None);
            }
            let op = Operation2::from((opcode & OPERATION_MASK) >> OPERATION_SHIFT);
            let addr_mode = AddressingMode2::from(mode_bits);
            let location = self.operand_address2(bus, &addr_mode, &op);
            let refused = self.apply_operation2(bus, op, &addr_mode, location);
            return (true, refused);
        }
        (false, None)
    }

    /// Carries out `opcode` if it belongs to group 2 and names one of its
    /// addressing modes, and says whether it does.
    pub fn execute_type2(&mut self, bus: &mut MainBus, opcode: u8) -> (recognized: bool)
        requires
            old(bus)@.wf(),
            machine(*old(self), *old(bus)).type2_readable(opcode),
            old(self).m_skip_cycles + machine(*old(self), *old(bus)).type2_cycles(opcode)
                <= u32::MAX,
        ensures
            recognized == Machine::recognizes2(opcode),
            recognized ==> machine(*final(self), *final(bus)) == machine(
                *old(self),
                *old(bus),
            ).type2(opcode),
            !recognized ==> *final(self) == *old(self) && final(bus)@ == old(bus)@,
            final(self).m_skip_cycles == old(self).m_skip_cycles + machine(
                *old(self),
                *old(bus),
            ).type2_cycles(opcode),
            final(bus)@.wf(),
            final(bus)@.keeps_devices(old(bus)@),
    {
        self.run_type2(bus, opcode).0
    }

    /// Tries the four groups in turn on an opcode that has a cost; says
    /// whether one of them took it, and hands back the write that the mapper
    /// refused.
    fn dispatch(&mut self, bus: &mut MainBus, opcode: u8) -> (out: (
        bool,
        Option<(Address, Byte)>,
    ))
        requires
            old(bus)@.wf(),
            machine(*old(self), *old(bus)).execute_readable(opcode),
            old(self).m_skip_cycles == 0,
        ensures
            out.0 == Machine::recognizes(opcode),
            machine(*final(self), *final(bus)) == machine(*old(self), *old(bus)).execute(opcode),
            out.1 == machine(*old(self), *old(bus)).refused_store(opcode),
            final(self).m_skip_cycles <= 2,
            final(bus)@.wf(),
            final(bus)@.keeps_devices(old(bus)@),
    {
        if self.execute_implied(bus, opcode) || self.execute_branch(bus, opcode) {
            return (true, None);
        }
        let (recognized, refused) = self.run_type1(bus, opcode);
        if recognized {
            return (true, refused);
        }
        self.run_type2(bus, opcode)
    }

    /// Counts the cycle, clears what is owed, and fetches the opcode at the
    /// program counter.
    fn fetch(&mut self, bus: &MainBus) -> (opcode: u8)
        requires
            bus@.wf(),
            bus@.readable(old(self).r_pc),
        ensures
            opcode == machine(*old(self), *bus).opcode(),
            machine(*final(self), *bus) == machine(*old(self), *bus).fetched(),
    {
        let opcode = bus.read(self.r_pc);
        *self = CPU {
            m_cycles: self.m_cycles.wrapping_add(1),
            m_skip_cycles: 0,
            r_pc: self.r_pc.wrapping_add(1),
            ..*self
        };
        opcode
    }

    /// One clock cycle. A cycle that an earlier instruction still owes only
    /// counts down. Any other fetches the opcode at the program counter and,
    /// if it has a cost and stands for an instruction, carries it out and
    /// owes its cost. The event says what was done, and names the write that
    /// the mapper refused, if there was one.
    pub fn step(&mut self, bus: &mut MainBus) -> (event: StepEvent)
        requires
            old(bus)@.wf(),
            machine(*old(self), *old(bus)).step_readable(),
        ensures
            machine(*final(self), *final(bus)) == machine(*old(self), *old(bus)).step(),
            event == machine(*old(self), *old(bus)).step_event(),
            final(bus)@.wf(),
            final(bus)@.keeps_devices(old(bus)@),
    {
        if self.m_skip_cycles > 1 {
            self.m_cycles = self.m_cycles.wrapping_add(1);
            self.m_skip_cycles -= 1;
            return StepEvent::Busy;
        }
        let opcode = self.fetch(bus);
        let cycle_length = base_cycles(opcode);
        if cycle_length == 0 {
            return StepEvent::Unrecognized(opcode);
        }
        let (recognized, refused) = self.dispatch(bus, opcode);
        if !recognized {
            return StepEvent::Unrecognized(opcode);
        }
        self.m_skip_cycles += cycle_length;
        match refused {
            Some((addr, value)) => StepEvent::StoreRefused { opcode, addr, value },
            None => StepEvent::Executed(opcode),
        }
    }
}

} // verus!
