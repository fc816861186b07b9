//! The mathematical model of the machine: a processor state beside a bus
//! state, and what each instruction makes of the pair. The executable
//! processor is proved against these functions.

use vstd::prelude::*;
use crate::cpu::{CPU, StepEvent};
use crate::cpu_opcodes::{
    addr_mode_bits, base_cost, branch_flag_bits, branch_on_set, group_bits, is_branch,
    operation_bits, AddressingMode1, AddressingMode2, BranchOnFlag, Operation1, Operation2,
    OperationImplied,
};
use crate::main_bus::{next_addr, word, BusView};

verus! {

/// `n` brought into a byte by adding or taking away 256, for an `n` that
/// is out by less than that.
pub open spec fn wrap8(n: int) -> u8
    recommends
        -256 <= n < 512,
{
    if n < 0 {
        (n + 256) as u8
    } else if n > 255 {
        (n - 256) as u8
    } else {
        n as u8
    }
}

/// `n` brought into an address by adding or taking away 65536, for an `n`
/// that is out by less than that.
pub open spec fn wrap16(n: int) -> u16
    recommends
        -65536 <= n < 131072,
{
    if n < 0 {
        (n + 65536) as u16
    } else if n > 65535 {
        (n - 65536) as u16
    } else {
        n as u16
    }
}

/// The cycle counter after one more cycle: it starts over after its last
/// value.
pub open spec fn next_cycle(cycles: u32) -> u32 {
    if cycles == u32::MAX {
        0
    } else {
        (cycles + 1) as u32
    }
}

/// `value` moved up by one bit, `carry_in` coming into bit 0 and bit 7
/// dropping out.
pub open spec fn shifted_left(value: u8, carry_in: bool) -> u8 {
    ((2 * value + bit(carry_in)) % 256) as u8
}

/// `value` moved down by one bit, `carry_in` coming into bit 7 and bit 0
/// dropping out.
pub open spec fn shifted_right(value: u8, carry_in: bool) -> u8 {
    (value / 2 + 128 * bit(carry_in)) as u8
}

/// A byte read as a two's-complement number.
pub open spec fn signed(b: u8) -> int {
    if b < 128 {
        b as int
    } else {
        b - 256
    }
}

/// The number of the 256-byte page that holds `addr`.
pub open spec fn page_of(addr: u16) -> int {
    (addr / 256) as int
}

/// 1 for a set flag, 0 for a clear one.
pub open spec fn bit(flag: bool) -> int {
    if flag {
        1
    } else {
        0
    }
}

/// The sign-overflow test of an addition: both operands differ from the
/// result in bit 7.
pub open spec fn sign_overflow(a: u8, operand: u8, result: u8) -> bool {
    ((a ^ result) & (operand ^ result) & 0x80) != 0
}

/// Where the stack pointer points, in page one.
pub open spec fn stack_addr(sp: u8) -> u16 {
    (0x100 + sp) as u16
}

impl CPU {
    /// The state that a reset leaves, with the program counter at
    /// `start_addr`.
    pub open spec fn reset_state(start_addr: u16) -> CPU {
        CPU {
            r_a: 0,
            r_x: 0,
            r_y: 0,
            r_sp: 0xfd,
            r_pc: start_addr,
            m_skip_cycles: 0,
            m_cycles: 0,
            f_i: true,
            f_c: false,
            f_d: false,
            f_n: false,
            f_v: false,
            f_z: false,
        }
    }

    /// Zero and Negative set from `value`.
    pub open spec fn with_zn(self, value: u8) -> CPU {
        CPU { f_z: value == 0, f_n: value >= 0x80, ..self }
    }

    /// `inc` more cycles owed if `a` and `b` lie in different pages.
    pub open spec fn with_page_crossed(self, a: u16, b: u16, inc: u32) -> CPU {
        if page_of(a) != page_of(b) {
            CPU { m_skip_cycles: (self.m_skip_cycles + inc) as u32, ..self }
        } else {
            self
        }
    }

    /// The program counter moved on by `n`.
    pub open spec fn with_pc_advanced(self, n: int) -> CPU {
        CPU { r_pc: wrap16(self.r_pc + n), ..self }
    }

    /// The flags as one byte, bits 4 and 5 set.
    pub open spec fn status(self) -> u8 {
        (128 * bit(self.f_n) + 64 * bit(self.f_v) + 32 + 16 + 8 * bit(self.f_d) + 4 * bit(
            self.f_i,
        ) + 2 * bit(self.f_z) + bit(self.f_c)) as u8
    }

    /// The flags taken from one byte. Bits 4 and 5 stand for no flag.
    pub open spec fn with_status(self, flags: u8) -> CPU {
        CPU {
            f_n: (flags / 128) % 2 == 1,
            f_v: (flags / 64) % 2 == 1,
            f_d: (flags / 8) % 2 == 1,
            f_i: (flags / 4) % 2 == 1,
            f_z: (flags / 2) % 2 == 1,
            f_c: flags % 2 == 1,
            ..self
        }
    }

    /// The accumulator set to `value`, and Zero and Negative from it.
    pub open spec fn with_a(self, value: u8) -> CPU {
        CPU { r_a: value, ..self }.with_zn(value)
    }

    /// The X index set to `value`, and Zero and Negative from it.
    pub open spec fn with_x(self, value: u8) -> CPU {
        CPU { r_x: value, ..self }.with_zn(value)
    }

    /// The Y index set to `value`, and Zero and Negative from it.
    pub open spec fn with_y(self, value: u8) -> CPU {
        CPU { r_y: value, ..self }.with_zn(value)
    }

    /// Addition with carry: the accumulator takes the low byte of
    /// accumulator + operand + carry, Carry says whether the sum went past
    /// 255, and Overflow whether it went out of the signed range.
    pub open spec fn adc(self, operand: u8) -> CPU {
        let sum = self.r_a + operand + bit(self.f_c);
        let result = wrap8(sum);
        CPU { f_c: sum >= 256, f_v: sign_overflow(self.r_a, operand, result), ..self }.with_a(
            result,
        )
    }

    /// Subtraction with borrow: the accumulator takes the low byte of
    /// accumulator - operand - (1 - carry), Carry says that nothing was
    /// borrowed, and Overflow is the test of the addition on the complement
    /// of the operand.
    pub open spec fn sbc(self, operand: u8) -> CPU {
        let diff = self.r_a - operand - (1 - bit(self.f_c));
        let result = wrap8(diff);
        CPU { f_c: diff >= 0, f_v: sign_overflow(self.r_a, !operand, result), ..self }.with_a(
            result,
        )
    }

    /// Comparison: the flags of accumulator - operand, the accumulator kept.
    pub open spec fn compared(self, operand: u8) -> CPU {
        let diff = self.r_a - operand;
        CPU { f_c: diff >= 0, ..self }.with_zn(wrap8(diff))
    }

    /// The flag that a branch tests.
    pub open spec fn flag(self, which: BranchOnFlag) -> bool {
        match which {
            BranchOnFlag::Negative => self.f_n,
            BranchOnFlag::Overflow => self.f_v,
            BranchOnFlag::Carry => self.f_c,
            BranchOnFlag::Zero => self.f_z,
        }
    }
}

/// A processor and the bus it runs on.
pub struct Machine {
    pub cpu: CPU,
    pub bus: BusView,
}

impl Machine {
    /// The byte that the bus returns at `addr`.
    pub open spec fn read(self, addr: u16) -> u8 {
        self.bus.read(addr)
    }

    /// The little-endian word that the bus returns at `addr`.
    pub open spec fn read16(self, addr: u16) -> u16 {
        self.bus.read_address16(addr)
    }

    /// The byte at `addr` can be read.
    pub open spec fn readable(self, addr: u16) -> bool {
        self.bus.readable(addr)
    }

    /// The word at `addr` can be read.
    pub open spec fn readable16(self, addr: u16) -> bool {
        self.bus.readable16(addr)
    }

    /// The machine after `value` is written at `addr`.
    pub open spec fn write(self, addr: u16, value: u8) -> Machine {
        Machine { bus: self.bus.write(addr, value), ..self }
    }

    /// The machine with `cpu` in place of its processor.
    pub open spec fn with_cpu(self, cpu: CPU) -> Machine {
        Machine { cpu, ..self }
    }

    /// `value` written where the stack pointer points, and the pointer moved
    /// down by one.
    pub open spec fn push(self, value: u8) -> Machine {
        Machine {
            cpu: CPU { r_sp: wrap8(self.cpu.r_sp - 1), ..self.cpu },
            bus: self.bus.write(stack_addr(self.cpu.r_sp), value),
        }
    }

    /// The byte that a pull returns: the one above the stack pointer.
    pub open spec fn top(self) -> u8 {
        self.bus.read(stack_addr(wrap8(self.cpu.r_sp + 1)))
    }

    /// The stack pointer moved up by one.
    pub open spec fn pulled(self) -> Machine {
        Machine { cpu: CPU { r_sp: wrap8(self.cpu.r_sp + 1), ..self.cpu }, ..self }
    }

    /// The program counter set to `pc`.
    pub open spec fn jump(self, pc: u16) -> Machine {
        Machine { cpu: CPU { r_pc: pc, ..self.cpu }, ..self }
    }

    /// The accumulator set to `value`, and Zero and Negative from it.
    pub open spec fn load_a(self, value: u8) -> Machine {
        Machine { cpu: self.cpu.with_a(value), ..self }
    }

    /// The X index set to `value`, and Zero and Negative from it.
    pub open spec fn load_x(self, value: u8) -> Machine {
        Machine { cpu: self.cpu.with_x(value), ..self }
    }

    /// The Y index set to `value`, and Zero and Negative from it.
    pub open spec fn load_y(self, value: u8) -> Machine {
        Machine { cpu: self.cpu.with_y(value), ..self }
    }

    /// Where an indirect jump through `pointer` fetches the high byte of its
    /// target: in the page of the pointer, also where the pointer is the
    /// last byte of that page.
    pub open spec fn indirect_high_addr(pointer: u16) -> u16 {
        ((pointer / 256) * 256 + (pointer + 1) % 256) as u16
    }

    /// Jump to subroutine: the address of the last byte of the instruction
    /// goes on the stack, high byte first, and the program counter takes the
    /// word that follows the opcode, read after the pushes.
    pub open spec fn jsr(self) -> Machine {
        let ret = wrap16(self.cpu.r_pc + 1);
        let pushed = self.push((ret / 256) as u8).push((ret % 256) as u8);
        pushed.jump(pushed.read16(self.cpu.r_pc))
    }

    /// Return from subroutine: an address comes off the stack, low byte
    /// first, and the program counter goes behind it.
    pub open spec fn rts(self) -> Machine {
        let lo = self.top();
        let hi = self.pulled().top();
        self.pulled().pulled().jump(wrap16(word(lo, hi) + 1))
    }

    /// Return from interrupt: the flags come off the stack, then an address,
    /// low byte first, which the program counter takes.
    pub open spec fn rti(self) -> Machine {
        let flags = self.top();
        let lo = self.pulled().top();
        let hi = self.pulled().pulled().top();
        let m = self.pulled().pulled().pulled();
        m.with_cpu(m.cpu.with_status(flags)).jump(word(lo, hi))
    }

    /// Indirect jump: the program counter takes the word at the address that
    /// follows the opcode, the high byte fetched without leaving the page.
    pub open spec fn jmp_indirect(self) -> Machine {
        let pointer = self.read16(self.cpu.r_pc);
        self.jump(word(self.read(pointer), self.read(Self::indirect_high_addr(pointer))))
    }

    /// Pull status: the flags come off the stack.
    pub open spec fn plp(self) -> Machine {
        let m = self.pulled();
        m.with_cpu(m.cpu.with_status(self.top()))
    }

    /// Every byte that the instruction reads outside the stack can be read:
    /// the jumps read the word behind the opcode, and the indirect jump the
    /// two bytes of its vector as well. The stack lies in work RAM.
    pub open spec fn implied_readable(self, op: OperationImplied) -> bool {
        let pc = self.cpu.r_pc;
        match op {
            OperationImplied::JSR => self.readable16(pc),
            OperationImplied::JMP => self.readable16(pc),
            OperationImplied::JMPI => {
                &&& self.readable16(pc)
                &&& self.readable(self.read16(pc))
                &&& self.readable(Self::indirect_high_addr(self.read16(pc)))
            },
            _ => true,
        }
    }

    /// What an instruction of the implied group makes of the machine, the
    /// program counter standing behind the opcode. `Unknown` makes nothing.
    pub open spec fn implied(self, op: OperationImplied) -> Machine {
        let cpu = self.cpu;
        match op {
            OperationImplied::NOP => self,
            OperationImplied::JSR => self.jsr(),
            OperationImplied::RTS => self.rts(),
            OperationImplied::RTI => self.rti(),
            OperationImplied::JMP => self.jump(self.read16(cpu.r_pc)),
            OperationImplied::JMPI => self.jmp_indirect(),
            OperationImplied::PHP => self.push(cpu.status()),
            OperationImplied::PLP => self.plp(),
            OperationImplied::PHA => self.push(cpu.r_a),
            OperationImplied::PLA => self.pulled().load_a(self.top()),
            OperationImplied::DEY => self.load_y(wrap8(cpu.r_y - 1)),
            OperationImplied::DEX => self.load_x(wrap8(cpu.r_x - 1)),
            OperationImplied::TAY => self.load_y(cpu.r_a),
            OperationImplied::INY => self.load_y(wrap8(cpu.r_y + 1)),
            OperationImplied::INX => self.load_x(wrap8(cpu.r_x + 1)),
            OperationImplied::CLC => self.with_cpu(CPU { f_c: false, ..cpu }),
            OperationImplied::SEC => self.with_cpu(CPU { f_c: true, ..cpu }),
            OperationImplied::CLI => self.with_cpu(CPU { f_i: false, ..cpu }),
            OperationImplied::SEI => self.with_cpu(CPU { f_i: true, ..cpu }),
            OperationImplied::CLD => self.with_cpu(CPU { f_d: false, ..cpu }),
            OperationImplied::SED => self.with_cpu(CPU { f_d: true, ..cpu }),
            OperationImplied::TYA => self.load_a(cpu.r_y),
            OperationImplied::CLV => self.with_cpu(CPU { f_v: false, ..cpu }),
            OperationImplied::TXA => self.load_a(cpu.r_x),
            OperationImplied::TXS => self.with_cpu(CPU { r_sp: cpu.r_x, ..cpu }),
            OperationImplied::TAX => self.load_x(cpu.r_a),
            OperationImplied::TSX => self.load_x(cpu.r_sp),
            OperationImplied::Unknown => self,
        }
    }

    /// Every byte that group 1 reads to find its operand address can be
    /// read. Page zero always can.
    pub open spec fn address1_readable(self, mode: AddressingMode1) -> bool {
        let pc = self.cpu.r_pc;
        match mode {
            AddressingMode1::IndexedIndirectX => self.readable(pc),
            AddressingMode1::ZeroPage => self.readable(pc),
            AddressingMode1::Immediate => true,
            AddressingMode1::Absolute => self.readable16(pc),
            AddressingMode1::IndirectY => self.readable(pc),
            AddressingMode1::IndexedX => self.readable(pc),
            AddressingMode1::AbsoluteY => self.readable16(pc),
            AddressingMode1::AbsoluteX => self.readable16(pc),
        }
    }

    /// Every byte that an opcode of group 1 reads can be read: those that
    /// lead to its operand address and, unless it is a store, the operand.
    /// An opcode of another group reads nothing here.
    pub open spec fn type1_readable(self, opcode: u8) -> bool {
        let op = Operation1::spec_from(operation_bits(opcode));
        let mode = AddressingMode1::spec_from(addr_mode_bits(opcode));
        group_bits(opcode) == 1 ==> {
            &&& self.address1_readable(mode)
            &&& op != Operation1::STA ==> self.readable(self.address1(mode))
        }
    }

    /// Where an instruction of group 1 finds its operand, the program counter
    /// standing behind the opcode.
    pub open spec fn address1(self, mode: AddressingMode1) -> u16 {
        let cpu = self.cpu;
        match mode {
            AddressingMode1::IndexedIndirectX => {
                let zero_addr = wrap8(cpu.r_x + self.read(cpu.r_pc));
                word(self.read(zero_addr as u16), self.read(wrap8(zero_addr + 1) as u16))
            },
            AddressingMode1::ZeroPage => self.read(cpu.r_pc) as u16,
            AddressingMode1::Immediate => cpu.r_pc,
            AddressingMode1::Absolute => self.read16(cpu.r_pc),
            AddressingMode1::IndirectY => wrap16(self.indirect_base(cpu.r_pc) + cpu.r_y),
            AddressingMode1::IndexedX => wrap8(self.read(cpu.r_pc) + cpu.r_x) as u16,
            AddressingMode1::AbsoluteY => wrap16(self.read16(cpu.r_pc) + cpu.r_y),
            AddressingMode1::AbsoluteX => wrap16(self.read16(cpu.r_pc) + cpu.r_x),
        }
    }

    /// The address that the indirect mode with Y adds Y to. The byte at `pc`
    /// names the cell of page zero that holds its low byte; its high byte
    /// lies in the cell after it, the last cell followed by the first.
    pub open spec fn indirect_base(self, pc: u16) -> u16 {
        let zero_addr = self.read(pc);
        word(self.read(zero_addr as u16), self.read(wrap8(zero_addr + 1) as u16))
    }

    /// Whether an instruction of group 1 owes a cycle for a page crossing:
    /// where Y or X carries an address into another page, unless the
    /// instruction is a store.
    pub open spec fn crosses1(self, mode: AddressingMode1, op: Operation1) -> bool {
        let cpu = self.cpu;
        op != Operation1::STA && match mode {
            AddressingMode1::IndirectY => {
                let base = self.indirect_base(cpu.r_pc);
                page_of(base) != page_of(wrap16(base + cpu.r_y))
            },
            AddressingMode1::AbsoluteY => {
                let base = self.read16(cpu.r_pc);
                page_of(base) != page_of(wrap16(base + cpu.r_y))
            },
            AddressingMode1::AbsoluteX => {
                let base = self.read16(cpu.r_pc);
                page_of(base) != page_of(wrap16(base + cpu.r_x))
            },
            _ => false,
        }
    }

    /// The cycles that `opcode` owes beyond its base cost as an instruction
    /// of group 1: one for a page crossing, none for an opcode of another
    /// group.
    pub open spec fn type1_cycles(self, opcode: u8) -> int {
        let op = Operation1::spec_from(operation_bits(opcode));
        let mode = AddressingMode1::spec_from(addr_mode_bits(opcode));
        if group_bits(opcode) == 1 && self.crosses1(mode, op) {
            1
        } else {
            0
        }
    }

    /// The processor after an instruction of group 1 has fetched its operand
    /// address: the program counter stands behind the operand bytes, and a
    /// cycle more is owed where an index carried the address into another
    /// page. A store never owes it.
    pub open spec fn fetched1(self, mode: AddressingMode1, op: Operation1) -> CPU {
        let cpu = self.cpu;
        match mode {
            AddressingMode1::IndexedIndirectX => cpu.with_pc_advanced(1),
            AddressingMode1::ZeroPage => cpu.with_pc_advanced(1),
            AddressingMode1::Immediate => cpu.with_pc_advanced(1),
            AddressingMode1::Absolute => cpu.with_pc_advanced(2),
            AddressingMode1::IndirectY => {
                let base = self.indirect_base(cpu.r_pc);
                if op != Operation1::STA {
                    cpu.with_page_crossed(base, wrap16(base + cpu.r_y), 1).with_pc_advanced(1)
                } else {
                    cpu.with_pc_advanced(1)
                }
            },
            AddressingMode1::IndexedX => cpu.with_pc_advanced(1),
            AddressingMode1::AbsoluteY => {
                let base = self.read16(cpu.r_pc);
                if op != Operation1::STA {
                    cpu.with_page_crossed(base, wrap16(base + cpu.r_y), 1).with_pc_advanced(2)
                } else {
                    cpu.with_pc_advanced(2)
                }
            },
            AddressingMode1::AbsoluteX => {
                let base = self.read16(cpu.r_pc);
                if op != Operation1::STA {
                    cpu.with_page_crossed(base, wrap16(base + cpu.r_x), 1).with_pc_advanced(2)
                } else {
                    cpu.with_pc_advanced(2)
                }
            },
        }
    }

    /// What an operation of group 1 makes of the machine and the operand at
    /// `location`.
    pub open spec fn apply1(self, op: Operation1, location: u16) -> Machine {
        let cpu = self.cpu;
        let operand = self.read(location);
        match op {
            Operation1::ORA => self.load_a(cpu.r_a | operand),
            Operation1::AND => self.load_a(cpu.r_a & operand),
            Operation1::EOR => self.load_a(cpu.r_a ^ operand),
            Operation1::ADC => self.with_cpu(cpu.adc(operand)),
            Operation1::STA => self.write(location, cpu.r_a),
            Operation1::LDA => self.load_a(operand),
            Operation1::SBC => self.with_cpu(cpu.sbc(operand)),
            Operation1::CMP => self.with_cpu(cpu.compared(operand)),
        }
    }

    /// The byte that an opcode of group 1 writes to memory, and where: the
    /// store writes the accumulator at its operand address, and nothing
    /// else of the group writes.
    pub open spec fn store1(self, opcode: u8) -> Option<(u16, u8)> {
        let op = Operation1::spec_from(operation_bits(opcode));
        let mode = AddressingMode1::spec_from(addr_mode_bits(opcode));
        if group_bits(opcode) == 1 && op == Operation1::STA {
            Some((self.address1(mode), self.cpu.r_a))
        } else {
            None
        }
    }

    /// What an opcode of group 1 makes of the machine.
    pub open spec fn type1(self, opcode: u8) -> Machine {
        let op = Operation1::spec_from(operation_bits(opcode));
        let mode = AddressingMode1::spec_from(addr_mode_bits(opcode));
        self.with_cpu(self.fetched1(mode, op)).apply1(op, self.address1(mode))
    }

    /// The index register that group 2 adds to an address: Y for the loads
    /// and stores of X, X for the rest.
    pub open spec fn index2(self, op: Operation2) -> u8 {
        if op == Operation2::LDX || op == Operation2::STX {
            self.cpu.r_y
        } else {
            self.cpu.r_x
        }
    }

    /// Every byte that group 2 reads to find its operand address can be
    /// read.
    pub open spec fn address2_readable(self, mode: AddressingMode2) -> bool {
        let pc = self.cpu.r_pc;
        match mode {
            AddressingMode2::Immediate_ => true,
            AddressingMode2::ZeroPage_ => self.readable(pc),
            AddressingMode2::Accumulator => true,
            AddressingMode2::Absolute_ => self.readable16(pc),
            AddressingMode2::Indexed => self.readable(pc),
            AddressingMode2::AbsoluteIndexed => self.readable16(pc),
        }
    }

    /// Whether an operation of group 2 reads its operand from memory: the
    /// store does not, and the shifts and rotations do not in the
    /// accumulator mode.
    pub open spec fn reads_operand2(op: Operation2, mode: AddressingMode2) -> bool {
        match op {
            Operation2::STX => false,
            Operation2::LDX => true,
            Operation2::DEC => true,
            Operation2::INC => true,
            _ => mode != AddressingMode2::Accumulator,
        }
    }

    /// Every byte that an opcode of group 2 reads can be read: those that
    /// lead to its operand address and, where the operation reads it, the
    /// operand. An opcode that group 2 does not take reads nothing here.
    pub open spec fn type2_readable(self, opcode: u8) -> bool {
        let op = Operation2::spec_from(operation_bits(opcode));
        let mode = AddressingMode2::spec_from(addr_mode_bits(opcode));
        Self::recognizes2(opcode) ==> {
            &&& self.address2_readable(mode)
            &&& Self::reads_operand2(op, mode) ==> self.readable(self.address2(mode, op))
        }
    }

    /// Where an instruction of group 2 finds its operand, the program counter
    /// standing behind the opcode. The accumulator mode names no address.
    pub open spec fn address2(self, mode: AddressingMode2, op: Operation2) -> u16 {
        let cpu = self.cpu;
        match mode {
            AddressingMode2::Immediate_ => cpu.r_pc,
            AddressingMode2::ZeroPage_ => self.read(cpu.r_pc) as u16,
            AddressingMode2::Accumulator => 0,
            AddressingMode2::Absolute_ => self.read16(cpu.r_pc),
            AddressingMode2::Indexed => wrap8(self.read(cpu.r_pc) + self.index2(op)) as u16,
            AddressingMode2::AbsoluteIndexed => wrap16(self.read16(cpu.r_pc) + self.index2(op)),
        }
    }

    /// Whether an instruction of group 2 owes a cycle for a page crossing:
    /// where the index carries an absolute address into another page.
    pub open spec fn crosses2(self, mode: AddressingMode2, op: Operation2) -> bool {
        let base = self.read16(self.cpu.r_pc);
        mode == AddressingMode2::AbsoluteIndexed && page_of(base) != page_of(
            wrap16(base + self.index2(op)),
        )
    }

    /// The cycles that `opcode` owes beyond its base cost as an instruction
    /// of group 2: one for a page crossing, none for an opcode that group 2
    /// does not take.
    pub open spec fn type2_cycles(self, opcode: u8) -> int {
        let op = Operation2::spec_from(operation_bits(opcode));
        let mode = AddressingMode2::spec_from(addr_mode_bits(opcode));
        if Self::recognizes2(opcode) && self.crosses2(mode, op) {
            1
        } else {
            0
        }
    }

    /// The number of operand bytes that follow an opcode of group 2.
    pub open spec fn operand_length2(mode: AddressingMode2) -> int {
        match mode {
            AddressingMode2::Immediate_ => 1,
            AddressingMode2::ZeroPage_ => 1,
            AddressingMode2::Accumulator => 0,
            AddressingMode2::Absolute_ => 2,
            AddressingMode2::Indexed => 1,
            AddressingMode2::AbsoluteIndexed => 2,
        }
    }

    /// The processor after an instruction of group 2 has fetched its operand
    /// address: the program counter stands behind the operand bytes, and a
    /// cycle more is owed where the index carried an absolute address into
    /// another page.
    pub open spec fn fetched2(self, mode: AddressingMode2, op: Operation2) -> CPU {
        let cpu = self.cpu;
        let owing = if self.crosses2(mode, op) {
            CPU { m_skip_cycles: (cpu.m_skip_cycles + 1) as u32, ..cpu }
        } else {
            cpu
        };
        owing.with_pc_advanced(Self::operand_length2(mode))
    }

    /// What an operation of group 2 makes of the machine and the operand at
    /// `location`. Shifts and rotations work on the accumulator in the
    /// accumulator mode and on the byte at `location` in the others, and set
    /// Zero and Negative from the result.
    pub open spec fn apply2(self, op: Operation2, mode: AddressingMode2, location: u16) -> Machine {
        let cpu = self.cpu;
        let operand = self.read(location);
        match op {
            Operation2::ASL => self.shift(false, false, mode, location),
            Operation2::ROL => self.shift(false, cpu.f_c, mode, location),
            Operation2::LSR => self.shift(true, false, mode, location),
            Operation2::ROR => self.shift(true, cpu.f_c, mode, location),
            Operation2::STX => self.write(location, cpu.r_x),
            Operation2::LDX => self.load_x(operand),
            Operation2::DEC => self.stepped(location, -1),
            Operation2::INC => self.stepped(location, 1),
        }
    }

    /// The byte at `location` moved by `delta`, which is 1 or -1, modulo 256,
    /// and Zero and Negative set from the result.
    pub open spec fn stepped(self, location: u16, delta: int) -> Machine {
        let result = wrap8(self.read(location) + delta);
        self.with_cpu(self.cpu.with_zn(result)).write(location, result)
    }

    /// The byte that an operation of group 2 writes at `location`, if it
    /// writes: the store writes X, the steps and the shifts on memory write
    /// their result, and the load and the shifts on the accumulator write
    /// nothing.
    pub open spec fn written2(
        self,
        op: Operation2,
        mode: AddressingMode2,
        location: u16,
    ) -> Option<(u16, u8)> {
        let operand = self.read(location);
        let in_memory = mode != AddressingMode2::Accumulator;
        match op {
            Operation2::ASL => if in_memory {
                Some((location, shifted_left(operand, false)))
            } else {
                None
            },
            Operation2::ROL => if in_memory {
                Some((location, shifted_left(operand, self.cpu.f_c)))
            } else {
                None
            },
            Operation2::LSR => if in_memory {
                Some((location, shifted_right(operand, false)))
            } else {
                None
            },
            Operation2::ROR => if in_memory {
                Some((location, shifted_right(operand, self.cpu.f_c)))
            } else {
                None
            },
            Operation2::STX => Some((location, self.cpu.r_x)),
            Operation2::LDX => None,
            Operation2::DEC => Some((location, wrap8(operand - 1))),
            Operation2::INC => Some((location, wrap8(operand + 1))),
        }
    }

    /// The byte that an opcode of group 2 writes to memory, and where.
    pub open spec fn store2(self, opcode: u8) -> Option<(u16, u8)> {
        let op = Operation2::spec_from(operation_bits(opcode));
        let mode = AddressingMode2::spec_from(addr_mode_bits(opcode));
        if Self::recognizes2(opcode) {
            self.written2(op, mode, self.address2(mode, op))
        } else {
            None
        }
    }

    /// A shift or rotation by one bit, to the right if `right`, with
    /// `carry_in` coming into the vacated bit. Carry takes the bit that drops
    /// out.
    pub open spec fn shift(
        self,
        right: bool,
        carry_in: bool,
        mode: AddressingMode2,
        location: u16,
    ) -> Machine {
        let cpu = self.cpu;
        let value = if mode == AddressingMode2::Accumulator {
            cpu.r_a
        } else {
            self.read(location)
        };
        let carry_out = if right {
            value % 2 == 1
        } else {
            value >= 0x80
        };
        let result = if right {
            shifted_right(value, carry_in)
        } else {
            shifted_left(value, carry_in)
        };
        if mode == AddressingMode2::Accumulator {
            self.with_cpu(CPU { f_c: carry_out, ..cpu }.with_a(result))
        } else {
            self.with_cpu(CPU { f_c: carry_out, ..cpu }.with_zn(result)).write(location, result)
        }
    }

    /// Whether `opcode` belongs to group 2 and names one of its addressing
    /// modes.
    pub open spec fn recognizes2(opcode: u8) -> bool {
        group_bits(opcode) == 2 && AddressingMode2::valid(addr_mode_bits(opcode))
    }

    /// What an opcode of group 2 makes of the machine.
    pub open spec fn type2(self, opcode: u8) -> Machine {
        let op = Operation2::spec_from(operation_bits(opcode));
        let mode = AddressingMode2::spec_from(addr_mode_bits(opcode));
        self.with_cpu(self.fetched2(mode, op)).apply2(op, mode, self.address2(mode, op))
    }

    /// The offset of a branch can be read if the branch is taken. A branch
    /// that is not taken reads nothing, nor does an opcode that is no
    /// branch.
    pub open spec fn branch_readable(self, opcode: u8) -> bool {
        is_branch(opcode) && self.branch_taken(opcode) ==> self.readable(self.cpu.r_pc)
    }

    /// Whether the branch `opcode` is taken: bit 5 says which value of the
    /// tested flag takes it.
    pub open spec fn branch_taken(self, opcode: u8) -> bool {
        branch_on_set(opcode) == self.cpu.flag(BranchOnFlag::spec_from(branch_flag_bits(opcode)))
    }

    /// Where a taken branch goes: the signed byte at the program counter
    /// added to the address behind that byte.
    pub open spec fn branch_target(self) -> u16 {
        wrap16(next_addr(self.cpu.r_pc) + signed(self.read(self.cpu.r_pc)))
    }

    /// The cycles that a branch owes beyond its base cost: none if it is not
    /// taken, one if it is taken, and two if its target lies in another page
    /// than the address behind the branch. An opcode that is no branch owes
    /// none.
    pub open spec fn branch_cycles(self, opcode: u8) -> int {
        if !(is_branch(opcode) && self.branch_taken(opcode)) {
            0
        } else if page_of(next_addr(self.cpu.r_pc)) == page_of(self.branch_target()) {
            1
        } else {
            2
        }
    }

    /// What a branch makes of the processor, the program counter standing
    /// behind the opcode. A branch that is not taken steps over its operand.
    /// One that is taken owes a cycle, and one more where the target lies in
    /// another page.
    pub open spec fn branch(self, opcode: u8) -> CPU {
        if self.branch_taken(opcode) {
            self.branch_taken_state()
        } else {
            self.cpu.with_pc_advanced(1)
        }
    }

    /// The processor after a branch is taken: a cycle is owed, one more if
    /// the target lies in another page than the address behind the branch,
    /// and the program counter stands at the target.
    pub open spec fn branch_taken_state(self) -> CPU {
        let cpu = self.cpu;
        let target = self.branch_target();
        let owed = CPU { m_skip_cycles: (cpu.m_skip_cycles + 1) as u32, ..cpu };
        CPU { r_pc: target, ..owed.with_page_crossed(next_addr(cpu.r_pc), target, 1) }
    }

    /// Whether `opcode` stands for an instruction.
    pub open spec fn recognizes(opcode: u8) -> bool {
        ||| OperationImplied::spec_from(opcode) != OperationImplied::Unknown
        ||| is_branch(opcode)
        ||| group_bits(opcode) == 1
        ||| Self::recognizes2(opcode)
    }

    /// A write that the mapper refuses: one that goes to the program window.
    pub open spec fn refused(store: Option<(u16, u8)>) -> Option<(u16, u8)> {
        match store {
            Some((addr, value)) => if addr >= 0x8000 {
                store
            } else {
                None
            },
            None => None,
        }
    }

    /// The write of `opcode` that the mapper refuses, if it makes one, the
    /// program counter standing behind the opcode. The stack lies in work
    /// RAM, so that only the stores, steps and shifts of groups 1 and 2 can
    /// make one.
    pub open spec fn refused_store(self, opcode: u8) -> Option<(u16, u8)> {
        if OperationImplied::spec_from(opcode) != OperationImplied::Unknown {
            None
        } else if is_branch(opcode) {
            None
        } else if group_bits(opcode) == 1 {
            Self::refused(self.store1(opcode))
        } else {
            Self::refused(self.store2(opcode))
        }
    }

    /// Every byte that `opcode` reads can be read, the program counter
    /// standing behind it.
    pub open spec fn execute_readable(self, opcode: u8) -> bool {
        if OperationImplied::spec_from(opcode) != OperationImplied::Unknown {
            self.implied_readable(OperationImplied::spec_from(opcode))
        } else if is_branch(opcode) {
            self.branch_readable(opcode)
        } else if group_bits(opcode) == 1 {
            self.type1_readable(opcode)
        } else {
            self.type2_readable(opcode)
        }
    }

    /// What `opcode` makes of the machine, the program counter standing
    /// behind it. The groups are tried in this order: the instructions known
    /// by their whole byte, the branches, group 1, group 2.
    pub open spec fn execute(self, opcode: u8) -> Machine {
        if OperationImplied::spec_from(opcode) != OperationImplied::Unknown {
            self.implied(OperationImplied::spec_from(opcode))
        } else if is_branch(opcode) {
            self.with_cpu(self.branch(opcode))
        } else if group_bits(opcode) == 1 {
            self.type1(opcode)
        } else if Self::recognizes2(opcode) {
            self.type2(opcode)
        } else {
            self
        }
    }

    /// Whether the coming cycle fetches an opcode, or goes to an instruction
    /// dispatched earlier.
    pub open spec fn ready(self) -> bool {
        self.cpu.m_skip_cycles <= 1
    }

    /// The opcode that the coming cycle fetches.
    pub open spec fn opcode(self) -> u8 {
        self.read(self.cpu.r_pc)
    }

    /// Whether the coming cycle dispatches an instruction: the opcode it
    /// fetches has a cost and stands for an instruction.
    pub open spec fn dispatches(self) -> bool {
        &&& self.ready()
        &&& base_cost(self.opcode()) != 0
        &&& Self::recognizes(self.opcode())
    }

    /// The machine behind the fetch of an opcode: the cycle counted, nothing
    /// owed, the program counter behind the opcode.
    pub open spec fn fetched(self) -> Machine {
        self.with_cpu(
            CPU {
                m_cycles: next_cycle(self.cpu.m_cycles),
                m_skip_cycles: 0,
                r_pc: next_addr(self.cpu.r_pc),
                ..self.cpu
            },
        )
    }

    /// Every byte that the coming cycle reads can be read: none where the
    /// cycle goes to an earlier instruction; else the opcode and, where an
    /// instruction is dispatched, what that instruction reads.
    pub open spec fn step_readable(self) -> bool {
        self.ready() ==> {
            &&& self.readable(self.cpu.r_pc)
            &&& self.dispatches() ==> self.fetched().execute_readable(self.opcode())
        }
    }

    /// The machine one clock cycle later.
    pub open spec fn step(self) -> Machine {
        if !self.ready() {
            self.with_cpu(
                CPU {
                    m_cycles: next_cycle(self.cpu.m_cycles),
                    m_skip_cycles: (self.cpu.m_skip_cycles - 1) as u32,
                    ..self.cpu
                },
            )
        } else if self.dispatches() {
            let done = self.fetched().execute(self.opcode());
            done.with_cpu(
                CPU {
                    m_skip_cycles: (done.cpu.m_skip_cycles + base_cost(self.opcode())) as u32,
                    ..done.cpu
                },
            )
        } else {
            self.fetched()
        }
    }

    /// What the coming cycle reports.
    pub open spec fn step_event(self) -> StepEvent {
        if !self.ready() {
            StepEvent::Busy
        } else if self.dispatches() {
            match self.fetched().refused_store(self.opcode()) {
                Some((addr, value)) => StepEvent::StoreRefused {
                    opcode: self.opcode(),
                    addr,
                    value,
                },
                None => StepEvent::Executed(self.opcode()),
            }
        } else {
            StepEvent::Unrecognized(self.opcode())
        }
    }

    /// `value` pushed `n` times.
    pub open spec fn push_n(self, value: u8, n: nat) -> Machine
        decreases n,
    {
        if n == 0 {
            self
        } else {
            self.push(value).push_n(value, (n - 1) as nat)
        }
    }
}

} // verus!
