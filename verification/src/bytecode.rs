//! Constants defining the bytecode.
//!
//! Each bytecode value is a 16-bit word where the first 8 bits are the group
//! code and the final 8 bits are the 'data' for that group. The constants are
//! separated into child modules to group them by use, and small builder
//! functions assemble full instruction words from a group and its data byte.

pub mod groups;
pub mod jump;
pub mod math;
pub mod stack;
pub mod sys;

use vstd::prelude::*;

verus! {

/// The mask for the group byte
pub const GROUP_MASK: u16 = 0xFF00;

/// The shift for group bytes to normalize it into a u8
pub const GROUP_SHIFT: u16 = 8;

/// The mask for the data byte
pub const DATA_MASK: u16 = 0x00FF;

/// The shift for data bytes to normalize it into a u8
///
/// This value is included for completeness, but is otherwise useless as a
/// shift by zero doesn't actually do anything.
pub const DATA_SHIFT: u16 = 0;

/// The group byte of an instruction word.
pub open spec fn group_of(opcode: u16) -> u8 {
    ((opcode & GROUP_MASK) >> GROUP_SHIFT) as u8
}

/// The data byte of an instruction word.
pub open spec fn data_of(opcode: u16) -> u8 {
    ((opcode & DATA_MASK) >> DATA_SHIFT) as u8
}

/// The instruction word with group byte `group` and data byte `data`.
pub open spec fn word_of(group: u8, data: u8) -> u16 {
    ((group as u16) << 8) | (data as u16)
}

/// An instruction word splits back into the group and data bytes it was
/// assembled from.
pub broadcast proof fn lemma_word_of_split(group: u8, data: u8)
    ensures
        group_of(#[trigger] word_of(group, data)) == group,
        data_of(word_of(group, data)) == data,
{
    assert(((((group as u16) << 8) | (data as u16)) & 0xFF00u16) >> 8u16 == group as u16)
        by (bit_vector);
    assert(((((group as u16) << 8) | (data as u16)) & 0x00FFu16) >> 0u16 == data as u16)
        by (bit_vector);
}

/// Build an instruction word of the system group.
pub fn inst_sys(data: u8) -> (r: u16)
    ensures
        r == word_of(groups::SYSTEM, data),
{
    ((groups::SYSTEM as u16) << 8) | (data as u16)
}

/// Build an instruction word of the stack group.
pub fn inst_stack(data: u8) -> (r: u16)
    ensures
        r == word_of(groups::STACK, data),
{
    ((groups::STACK as u16) << 8) | (data as u16)
}

/// Build an instruction word of the math group.
pub fn inst_math(data: u8) -> (r: u16)
    ensures
        r == word_of(groups::MATH, data),
{
    ((groups::MATH as u16) << 8) | (data as u16)
}

/// Build an unconditional jump instruction word from its source and mode
/// bits.
pub fn inst_jump(src: u8, mode: u8) -> (r: u16)
    ensures
        r == word_of(groups::JUMP, src | mode | jump::CONDITIONAL_FALSE),
{
    ((groups::JUMP as u16) << 8) | ((src | mode | jump::CONDITIONAL_FALSE) as u16)
}

/// Build a conditional jump instruction word from its source, mode and
/// condition bits.
pub fn inst_jump_cond(src: u8, mode: u8, condition: u8) -> (r: u16)
    ensures
        r == word_of(groups::JUMP, src | mode | jump::CONDITIONAL_TRUE | condition),
{
    ((groups::JUMP as u16) << 8) | ((src | mode | jump::CONDITIONAL_TRUE | condition) as u16)
}

} // verus!
