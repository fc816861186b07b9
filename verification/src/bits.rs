//! Facts about masks, shifts and truncation that the default solver does not
//! see by itself. Each is discharged by bit-blasting.

use vstd::prelude::*;

verus! {

/// The mirroring mask of work RAM keeps an address inside the 2 KiB array
/// and is the remainder modulo 0x800.
pub proof fn lemma_ram_mask(addr: u16)
    by (bit_vector)
    ensures
        (addr & 0x7FF) < 0x800,
        (addr & 0x7FF) == addr % 0x800,
{
}

/// The mask that folds the program window onto a single bank is the
/// remainder modulo the bank size.
pub proof fn lemma_bank_mask(offset: u16)
    by (bit_vector)
    ensures
        (offset & 0x3FFF) < 0x4000,
        (offset & 0x3FFF) == offset % 0x4000,
{
}

/// Joining two bytes with a shift and an or gives low + 256 * high.
pub proof fn lemma_word_bits(lo: u8, hi: u8)
    by (bit_vector)
    ensures
        (lo as u16) | ((hi as u16) << 8) == lo + 256 * hi,
        ((hi as u16) << 8) == 256 * hi,
{
}

/// Taking a word apart with a shift and a truncation gives its quotient and
/// remainder by 256.
pub proof fn lemma_split_word(w: u16)
    by (bit_vector)
    ensures
        (w >> 8) == w / 256,
        (w >> 8) < 256,
        (w as u8) == w % 256,
        (w & 0xFF00) == (w / 256) * 256,
        (w & 0xFF) == w % 256,
{
}

/// Putting a low byte under a page number with an or is an addition.
pub proof fn lemma_page_or(page: u16, low: u16)
    by (bit_vector)
    requires
        page % 256 == 0,
        low < 256,
    ensures
        (page | low) == page + low,
{
}

/// The stack lives in page one: or-ing the stack pointer under 0x100 adds it.
pub proof fn lemma_stack_addr(sp: u8)
    by (bit_vector)
    ensures
        (0x100u16 | sp as u16) == 0x100 + sp,
{
}

/// The fields of an opcode byte, as masks and shifts and as quotients and
/// remainders.
pub proof fn lemma_opcode_fields(opcode: u8)
    by (bit_vector)
    ensures
        (opcode & 0x3) == opcode % 4,
        ((opcode & 0xe0) >> 5) == opcode / 32,
        ((opcode & 0x1c) >> 2) == (opcode / 4) % 8,
        (opcode & 0x1f) == opcode % 32,
        (opcode >> 6) == opcode / 64,
        ((opcode & 0x20) != 0) == ((opcode / 32) % 2 == 1),
{
}

/// Bit 7 of a byte is set exactly when the byte is 128 or more, and bit 0
/// exactly when it is odd.
pub proof fn lemma_end_bits(value: u8)
    by (bit_vector)
    ensures
        ((value & 0x80) != 0) == (value >= 0x80),
        ((value & 1) != 0) == (value % 2 == 1),
{
}

/// The six flags of a status byte, as masks and as quotients.
pub proof fn lemma_status_bits(flags: u8)
    by (bit_vector)
    ensures
        ((flags & 0x80) != 0) == ((flags / 128) % 2 == 1),
        ((flags & 0x40) != 0) == ((flags / 64) % 2 == 1),
        ((flags & 0x8) != 0) == ((flags / 8) % 2 == 1),
        ((flags & 0x4) != 0) == ((flags / 4) % 2 == 1),
        ((flags & 0x2) != 0) == ((flags / 2) % 2 == 1),
        ((flags & 0x1) != 0) == (flags % 2 == 1),
{
}

/// A sum of two bytes and a carry: bit 8 is the carry out, and truncation
/// takes 256 away where it is set.
pub proof fn lemma_sum_bits(sum: u16)
    by (bit_vector)
    requires
        sum <= 0x1FF,
    ensures
        ((sum & 0x100) != 0) == (sum >= 0x100),
        sum < 0x100 ==> (sum as u8) == sum,
        sum >= 0x100 ==> (sum as u8) == sum - 0x100,
{
}

/// A difference of two bytes and a borrow in a signed 16-bit value: bit 8 is
/// set exactly when the difference is negative, and truncation adds 256
/// where it is.
pub proof fn lemma_difference_bits(diff: i16)
    by (bit_vector)
    requires
        -256 <= diff <= 255,
    ensures
        ((diff & 0x100) != 0) == (diff < 0),
        diff >= 0 ==> (diff as u8) == diff,
        diff < 0 ==> (diff as u8) == diff + 256,
{
}

/// A byte read as a signed offset.
pub proof fn lemma_signed_byte(b: u8)
    by (bit_vector)
    ensures
        b < 128 ==> (b as i8) == b,
        b >= 128 ==> (b as i8) == b - 256,
{
}

/// Truncating a program counter moved by a signed offset wraps it around
/// the 64 KiB address space.
pub proof fn lemma_wrap_target(target: i32)
    by (bit_vector)
    requires
        -128 <= target <= 65535 + 127,
    ensures
        0 <= target <= 65535 ==> (target as u16) == target,
        target < 0 ==> (target as u16) == target + 65536,
        target > 65535 ==> (target as u16) == target - 65536,
{
}

/// Shifting a byte left and putting a carry into bit 0 doubles it modulo
/// 256 and adds the carry.
pub proof fn lemma_shift_left(value: u8, carry: u8)
    by (bit_vector)
    requires
        carry <= 1,
    ensures
        ((value << 1) | carry) == (2 * value + carry) % 256,
{
}

/// Shifting a byte right and putting a carry into bit 7 halves it and adds
/// 128 for the carry.
pub proof fn lemma_shift_right(value: u8, carry: u8)
    by (bit_vector)
    requires
        carry <= 1,
    ensures
        ((value >> 1) | (carry << 7)) == value / 2 + 128 * carry,
{
}

/// The fields of the three header bytes that carry flags, as masks and
/// shifts and as quotients and remainders.
pub proof fn lemma_header_bits(flags6: u8, flags7: u8, flags10: u8)
    by (bit_vector)
    ensures
        (flags6 & 0x1) == flags6 % 2,
        ((flags6 & 0x4) != 0) == ((flags6 / 4) % 2 == 1),
        ((flags6 & 0x2) != 0) == ((flags6 / 2) % 2 == 1),
        (((flags6 >> 4) & 0xf) | (flags7 & 0xf0)) == flags6 / 16 + 16 * (flags7 / 16),
        ((flags10 & 0x3) == 0x2 || (flags10 & 0x1) != 0) == (flags10 % 4 != 0),
{
}

/// The complement of a byte is what it lacks to 255.
pub proof fn lemma_complement(value: u8)
    by (bit_vector)
    ensures
        !value == 255 - value,
{
}

/// The sign-overflow test looks at bit 7 alone: it holds where both operands
/// have the same bit 7 and the result has the other.
pub proof fn lemma_sign_bits(a: u8, operand: u8, result: u8)
    by (bit_vector)
    ensures
        (((a ^ result) & (operand ^ result) & 0x80) != 0) == ((a >= 0x80) == (operand >= 0x80) && (
        result >= 0x80) != (a >= 0x80)),
{
}

} // verus!
