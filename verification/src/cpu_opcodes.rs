//! How an opcode byte is taken apart: the bit fields that name an
//! instruction's group, operation and addressing mode, the instructions that
//! are known by their whole byte, and the table of base cycle costs.

use vstd::prelude::*;
use vstd::std_specs::cmp::PartialEqSpecImpl;

verus! {

/// The bits of an opcode that name its instruction group.
pub const INSTRUCTION_MODE_MASK: u8 = 0x3;

/// The bits of an opcode of group 1 or 2 that name its operation.
pub const OPERATION_MASK: u8 = 0xe0;

/// Where the operation bits begin.
pub const OPERATION_SHIFT: u8 = 5;

/// The bits of an opcode of group 1 or 2 that name its addressing mode.
pub const ADDR_MODE_MASK: u8 = 0x1c;

/// Where the addressing-mode bits begin.
pub const ADDR_MODE_SHIFT: u8 = 2;

/// The bits of an opcode that tell a branch from other instructions.
pub const BRANCH_INSTRUCTION_MASK: u8 = 0x1f;

/// What those bits hold in a branch.
pub const BRANCH_INSTRUCTION_MASK_RESULT: u8 = 0x10;

/// The bit of a branch that says on which value of the flag it is taken.
pub const BRANCH_CONDITION_MASK: u8 = 0x20;

/// Where the bits that name the tested flag begin.
pub const BRANCH_ON_FLAG_SHIFT: u8 = 6;

/// Where the address lies at which the processor starts after a reset.
pub const RESET_VECTOR: u16 = 0xfffc;

/// Base cost of each opcode in clock cycles. Zero marks an opcode that the
/// processor does not have.
pub const OPERATION_CYCLES: [u32; 0x100] = [
    7, 6, 0, 0, 0, 3, 5, 0, 3, 2, 2, 0, 0, 4, 6, 0,
    2, 5, 0, 0, 0, 4, 6, 0, 2, 4, 0, 0, 0, 4, 7, 0,
    6, 6, 0, 0, 3, 3, 5, 0, 4, 2, 2, 0, 4, 4, 6, 0,
    2, 5, 0, 0, 0, 4, 6, 0, 2, 4, 0, 0, 0, 4, 7, 0,
    6, 6, 0, 0, 0, 3, 5, 0, 3, 2, 2, 0, 3, 4, 6, 0,
    2, 5, 0, 0, 0, 4, 6, 0, 2, 4, 0, 0, 0, 4, 7, 0,
    6, 6, 0, 0, 0, 3, 5, 0, 4, 2, 2, 0, 5, 4, 6, 0,
    2, 5, 0, 0, 0, 4, 6, 0, 2, 4, 0, 0, 0, 4, 7, 0,
    0, 6, 0, 0, 3, 3, 3, 0, 2, 0, 2, 0, 4, 4, 4, 0,
    2, 6, 0, 0, 4, 4, 4, 0, 2, 5, 2, 0, 0, 5, 0, 0,
    2, 6, 2, 0, 3, 3, 3, 0, 2, 2, 2, 0, 4, 4, 4, 0,
    2, 5, 0, 0, 4, 4, 4, 0, 2, 4, 2, 0, 4, 4, 4, 0,
    2, 6, 0, 0, 3, 3, 5, 0, 2, 2, 2, 0, 4, 4, 6, 0,
    2, 5, 0, 0, 0, 4, 6, 0, 2, 4, 0, 0, 0, 4, 7, 0,
    2, 6, 0, 0, 3, 3, 5, 0, 2, 2, 2, 2, 4, 4, 6, 0,
    2, 5, 0, 0, 0, 4, 6, 0, 2, 4, 0, 0, 0, 4, 7, 0,
];

/// What the table says of `opcode`. The table stays out of sight of the
/// solver until `base_cost` is revealed.
#[verifier::opaque]
pub open spec fn base_cost(opcode: u8) -> u32 {
    OPERATION_CYCLES[opcode as int]
}

/// Looks `opcode` up in the table of base costs.
pub fn base_cycles(opcode: u8) -> (cycles: u32)
    ensures
        cycles == base_cost(opcode),
        cycles <= 7,
{
    proof {
        reveal(base_cost);
    }
    OPERATION_CYCLES[opcode as usize]
}

/// The instruction group: the lowest two bits.
pub open spec fn group_bits(opcode: u8) -> u8 {
    opcode % 4
}

/// The operation within groups 1 and 2: the highest three bits.
pub open spec fn operation_bits(opcode: u8) -> u8 {
    opcode / 32
}

/// The addressing mode within groups 1 and 2: bits 2 to 4.
pub open spec fn addr_mode_bits(opcode: u8) -> u8 {
    (opcode / 4) % 8
}

/// A conditional branch has 0x10 in its lowest five bits.
pub open spec fn is_branch(opcode: u8) -> bool {
    opcode % 32 == 16
}

/// Which flag a branch tests: the highest two bits.
pub open spec fn branch_flag_bits(opcode: u8) -> u8 {
    opcode / 64
}

/// Bit 5 of a branch: whether it is taken when the flag is set.
pub open spec fn branch_on_set(opcode: u8) -> bool {
    (opcode / 32) % 2 == 1
}

/// The flag that a conditional branch tests.
#[derive(Clone, Copy, Debug)]
pub enum BranchOnFlag {
    Negative,
    Overflow,
    Carry,
    Zero,
}

impl BranchOnFlag {
    pub open spec fn spec_from(value: u8) -> BranchOnFlag {
        match value {
            0 => BranchOnFlag::Negative,
            1 => BranchOnFlag::Overflow,
            2 => BranchOnFlag::Carry,
            _ => BranchOnFlag::Zero,
        }
    }

    pub fn from(value: u8) -> (flag: BranchOnFlag)
        requires
            value <= 3,
        ensures
            flag == Self::spec_from(value),
    {
        match value {
            0 => BranchOnFlag::Negative,
            1 => BranchOnFlag::Overflow,
            2 => BranchOnFlag::Carry,
            _ => BranchOnFlag::Zero,
        }
    }
}

/// The operations of group 1, in the order of their three bits.
#[derive(Clone, Copy, Debug)]
pub enum Operation1 {
    ORA,
    AND,
    EOR,
    ADC,
    STA,
    LDA,
    CMP,
    SBC,
}

impl Operation1 {
    pub open spec fn spec_from(value: u8) -> Operation1 {
        match value {
            0 => Operation1::ORA,
            1 => Operation1::AND,
            2 => Operation1::EOR,
            3 => Operation1::ADC,
            4 => Operation1::STA,
            5 => Operation1::LDA,
            6 => Operation1::CMP,
            _ => Operation1::SBC,
        }
    }

    pub fn from(value: u8) -> (op: Operation1)
        requires
            value <= 7,
        ensures
            op == Self::spec_from(value),
    {
        match value {
            0 => Operation1::ORA,
            1 => Operation1::AND,
            2 => Operation1::EOR,
            3 => Operation1::ADC,
            4 => Operation1::STA,
            5 => Operation1::LDA,
            6 => Operation1::CMP,
            _ => Operation1::SBC,
        }
    }
}

impl PartialEq for Operation1 {
    fn eq(&self, other: &Self) -> (same: bool) {
        match (self, other) {
            (Operation1::ORA, Operation1::ORA) => true,
            (Operation1::AND, Operation1::AND) => true,
            (Operation1::EOR, Operation1::EOR) => true,
            (Operation1::ADC, Operation1::ADC) => true,
            (Operation1::STA, Operation1::STA) => true,
            (Operation1::LDA, Operation1::LDA) => true,
            (Operation1::CMP, Operation1::CMP) => true,
            (Operation1::SBC, Operation1::SBC) => true,
            _ => false,
        }
    }
}

impl PartialEqSpecImpl for Operation1 {
    open spec fn obeys_eq_spec() -> bool {
        true
    }

    open spec fn eq_spec(&self, other: &Self) -> bool {
        *self == *other
    }
}

/// The instructions that are known by their whole opcode byte.
#[derive(Clone, Copy, Debug)]
pub enum OperationImplied {
    NOP,
    JSR,
    RTI,
    RTS,
    JMP,
    JMPI,
    PHP,
    PLP,
    PHA,
    PLA,
    DEY,
    DEX,
    TAY,
    INY,
    INX,
    CLC,
    SEC,
    CLI,
    SEI,
    TYA,
    CLV,
    CLD,
    SED,
    TXA,
    TXS,
    TAX,
    TSX,
    Unknown,
}

impl OperationImplied {
    /// The instruction that `value` stands for, `Unknown` where it stands for
    /// none of this group.
    pub open spec fn spec_from(value: u8) -> OperationImplied {
        match value {
            0xea => OperationImplied::NOP,
            0x20 => OperationImplied::JSR,
            0x40 => OperationImplied::RTI,
            0x60 => OperationImplied::RTS,
            0x4c => OperationImplied::JMP,
            0x6c => OperationImplied::JMPI,
            0x08 => OperationImplied::PHP,
            0x28 => OperationImplied::PLP,
            0x48 => OperationImplied::PHA,
            0x68 => OperationImplied::PLA,
            0x88 => OperationImplied::DEY,
            0xca => OperationImplied::DEX,
            0xa8 => OperationImplied::TAY,
            0xc8 => OperationImplied::INY,
            0xe8 => OperationImplied::INX,
            0x18 => OperationImplied::CLC,
            0x38 => OperationImplied::SEC,
            0x58 => OperationImplied::CLI,
            0x78 => OperationImplied::SEI,
            0x98 => OperationImplied::TYA,
            0xb8 => OperationImplied::CLV,
            0xd8 => OperationImplied::CLD,
            0xf8 => OperationImplied::SED,
            0x8a => OperationImplied::TXA,
            0x9a => OperationImplied::TXS,
            0xaa => OperationImplied::TAX,
            0xba => OperationImplied::TSX,
            _ => OperationImplied::Unknown,
        }
    }

    pub fn from(value: u8) -> (op: OperationImplied)
        ensures
            op == Self::spec_from(value),
    {
        match value {
            0xea => OperationImplied::NOP,
            0x20 => OperationImplied::JSR,
            0x40 => OperationImplied::RTI,
            0x60 => OperationImplied::RTS,
            0x4c => OperationImplied::JMP,
            0x6c => OperationImplied::JMPI,
            0x08 => OperationImplied::PHP,
            0x28 => OperationImplied::PLP,
            0x48 => OperationImplied::PHA,
            0x68 => OperationImplied::PLA,
            0x88 => OperationImplied::DEY,
            0xca => OperationImplied::DEX,
            0xa8 => OperationImplied::TAY,
            0xc8 => OperationImplied::INY,
            0xe8 => OperationImplied::INX,
            0x18 => OperationImplied::CLC,
            0x38 => OperationImplied::SEC,
            0x58 => OperationImplied::CLI,
            0x78 => OperationImplied::SEI,
            0x98 => OperationImplied::TYA,
            0xb8 => OperationImplied::CLV,
            0xd8 => OperationImplied::CLD,
            0xf8 => OperationImplied::SED,
            0x8a => OperationImplied::TXA,
            0x9a => OperationImplied::TXS,
            0xaa => OperationImplied::TAX,
            0xba => OperationImplied::TSX,
            _ => OperationImplied::Unknown,
        }
    }
}

/// The addressing modes of group 1, in the order of their three bits.
#[derive(Clone, Copy, Debug)]
pub enum AddressingMode1 {
    IndexedIndirectX,
    ZeroPage,
    Immediate,
    Absolute,
    IndirectY,
    IndexedX,
    AbsoluteY,
    AbsoluteX,
}

impl AddressingMode1 {
    pub open spec fn spec_from(value: u8) -> AddressingMode1 {
        match value {
            0 => AddressingMode1::IndexedIndirectX,
            1 => AddressingMode1::ZeroPage,
            2 => AddressingMode1::Immediate,
            3 => AddressingMode1::Absolute,
            4 => AddressingMode1::IndirectY,
            5 => AddressingMode1::IndexedX,
            6 => AddressingMode1::AbsoluteY,
            _ => AddressingMode1::AbsoluteX,
        }
    }

    pub fn from(value: u8) -> (mode: AddressingMode1)
        requires
            value <= 7,
        ensures
            mode == Self::spec_from(value),
    {
        match value {
            0 => AddressingMode1::IndexedIndirectX,
            1 => AddressingMode1::ZeroPage,
            2 => AddressingMode1::Immediate,
            3 => AddressingMode1::Absolute,
            4 => AddressingMode1::IndirectY,
            5 => AddressingMode1::IndexedX,
            6 => AddressingMode1::AbsoluteY,
            _ => AddressingMode1::AbsoluteX,
        }
    }
}

/// The operations of group 2, in the order of their three bits.
#[derive(Clone, Copy, Debug)]
pub enum Operation2 {
    ASL,
    ROL,
    LSR,
    ROR,
    STX,
    LDX,
    DEC,
    INC,
}

impl Operation2 {
    pub open spec fn spec_from(value: u8) -> Operation2 {
        match value {
            0 => Operation2::ASL,
            1 => Operation2::ROL,
            2 => Operation2::LSR,
            3 => Operation2::ROR,
            4 => Operation2::STX,
            5 => Operation2::LDX,
            6 => Operation2::DEC,
            _ => Operation2::INC,
        }
    }

    pub fn from(value: u8) -> (op: Operation2)
        requires
            value <= 7,
        ensures
            op == Self::spec_from(value),
    {
        match value {
            0 => Operation2::ASL,
            1 => Operation2::ROL,
            2 => Operation2::LSR,
            3 => Operation2::ROR,
            4 => Operation2::STX,
            5 => Operation2::LDX,
            6 => Operation2::DEC,
            _ => Operation2::INC,
        }
    }
}

impl PartialEq for Operation2 {
    fn eq(&self, other: &Self) -> (same: bool) {
        match (self, other) {
            (Operation2::ASL, Operation2::ASL) => true,
            (Operation2::ROL, Operation2::ROL) => true,
            (Operation2::LSR, Operation2::LSR) => true,
            (Operation2::ROR, Operation2::ROR) => true,
            (Operation2::STX, Operation2::STX) => true,
            (Operation2::LDX, Operation2::LDX) => true,
            (Operation2::DEC, Operation2::DEC) => true,
            (Operation2::INC, Operation2::INC) => true,
            _ => false,
        }
    }
}

impl PartialEqSpecImpl for Operation2 {
    open spec fn obeys_eq_spec() -> bool {
        true
    }

    open spec fn eq_spec(&self, other: &Self) -> bool {
        *self == *other
    }
}

/// The addressing modes of group 2. The bit patterns 4 and 6 stand for none.
#[derive(Clone, Copy, Debug)]
pub enum AddressingMode2 {
    Immediate_,
    ZeroPage_,
    Accumulator,
    Absolute_,
    Indexed,
    AbsoluteIndexed,
}

impl AddressingMode2 {
    /// Whether the three bits stand for a mode of this group.
    pub open spec fn valid(value: u8) -> bool {
        value <= 7 && value != 4 && value != 6
    }

    pub open spec fn spec_from(value: u8) -> AddressingMode2 {
        match value {
            0 => AddressingMode2::Immediate_,
            1 => AddressingMode2::ZeroPage_,
            2 => AddressingMode2::Accumulator,
            3 => AddressingMode2::Absolute_,
            5 => AddressingMode2::Indexed,
            _ => AddressingMode2::AbsoluteIndexed,
        }
    }

    pub fn from(value: u8) -> (mode: AddressingMode2)
        requires
            Self::valid(value),
        ensures
            mode == Self::spec_from(value),
    {
        match value {
            0 => AddressingMode2::Immediate_,
            1 => AddressingMode2::ZeroPage_,
            2 => AddressingMode2::Accumulator,
            3 => AddressingMode2::Absolute_,
            5 => AddressingMode2::Indexed,
            _ => AddressingMode2::AbsoluteIndexed,
        }
    }
}

impl PartialEq for AddressingMode2 {
    fn eq(&self, other: &Self) -> (same: bool) {
        match (self, other) {
            (AddressingMode2::Immediate_, AddressingMode2::Immediate_) => true,
            (AddressingMode2::ZeroPage_, AddressingMode2::ZeroPage_) => true,
            (AddressingMode2::Accumulator, AddressingMode2::Accumulator) => true,
            (AddressingMode2::Absolute_, AddressingMode2::Absolute_) => true,
            (AddressingMode2::Indexed, AddressingMode2::Indexed) => true,
            (AddressingMode2::AbsoluteIndexed, AddressingMode2::AbsoluteIndexed) => true,
            _ => false,
        }
    }
}

impl PartialEqSpecImpl for AddressingMode2 {
    open spec fn obeys_eq_spec() -> bool {
        true
    }

    open spec fn eq_spec(&self, other: &Self) -> bool {
        *self == *other
    }
}

} // verus!
