//! The operand resolver: a raw 16-bit word read from memory denotes either
//! an immediate literal (0..=32767), a reference to one of the eight
//! registers (32768..=32775), or nothing at all (32776 and above, which
//! must fail decoding). A destination operand must be a register
//! reference; a literal is never a valid assignment target.

use vstd::prelude::*;
use crate::outcome::VmError;

verus! {

/// Least operand word that denotes a register: words below it are
/// literals.
pub const REG_BASE: u16 = 32768;

/// Number of registers; words from `REG_BASE + REG_COUNT` up are invalid.
pub const REG_COUNT: u16 = 8;

/// Value of the word `w` under the register file `regs`: the word itself
/// if it is a literal, the current value of register `w - 32768` if it is
/// a register reference, nothing if it is invalid.
pub open spec fn resolve_spec(regs: Seq<u16>, w: u16) -> Option<u16> {
    if w < REG_BASE {
        Some(w)
    } else if w < REG_BASE + REG_COUNT {
        Some(regs[w - REG_BASE])
    } else {
        None
    }
}

/// Register index denoted by the destination word `w`: a literal is an
/// invalid write target, a word of 32776 or more is an invalid operand.
pub open spec fn write_target_spec(w: u16) -> Result<u16, VmError> {
    if w < REG_BASE {
        Err(VmError::InvalidWriteTarget(w))
    } else if w < REG_BASE + REG_COUNT {
        Ok((w - REG_BASE) as u16)
    } else {
        Err(VmError::InvalidOperand(w))
    }
}

/// Resolves the operand word `w` against the register file: a literal
/// yields itself, a register reference yields the register's current
/// value, and any word of 32776 or more fails with `InvalidOperand`.
/// Resolution never mutates state.
pub fn resolve_word(regs: &Vec<u16>, w: u16) -> (r: Result<u16, VmError>)
    requires
        regs@.len() == REG_COUNT,
    ensures
        w < 32768 ==> r == Ok::<u16, VmError>(w),
        32768 <= w < 32776 ==> r == Ok::<u16, VmError>(regs@[w - 32768]),
        w >= 32776 ==> r == Err::<u16, VmError>(VmError::InvalidOperand(w)),
        r is Ok <==> resolve_spec(regs@, w) is Some,
        r is Ok ==> r->Ok_0 == resolve_spec(regs@, w)->0,
{
    if w < REG_BASE {
        Ok(w)
    } else if w < REG_BASE + REG_COUNT {
        Ok(regs[(w - REG_BASE) as usize])
    } else {
        Err(VmError::InvalidOperand(w))
    }
}

/// Validates the destination word `w` as a write target and yields the
/// register index it denotes. A literal fails with `InvalidWriteTarget`
/// (it is classified before any value resolution is attempted), a word of
/// 32776 or more fails with `InvalidOperand`.
pub fn write_target(w: u16) -> (r: Result<u16, VmError>)
    ensures
        r == write_target_spec(w),
        r is Ok ==> r->Ok_0 < 8,
{
    if w < REG_BASE {
        Err(VmError::InvalidWriteTarget(w))
    } else if w < REG_BASE + REG_COUNT {
        Ok(w - REG_BASE)
    } else {
        Err(VmError::InvalidOperand(w))
    }
}

} // verus!
