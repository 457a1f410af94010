//! Wrapping byte and word arithmetic with flag updates.

use vstd::prelude::*;

use crate::decoder::op::OpKind;
use crate::sim::{Machine, SimState};

verus! {

/// The wrapping arithmetic result an operation computes on bytes; compare
/// computes the same difference as subtract, for the flags alone.
pub open spec fn spec_op8_result(kind: OpKind, first: u8, second: u8) -> u8 {
    match kind {
        OpKind::Add => vstd::wrapping::u8_specs::wrapping_add(first, second),
        OpKind::Sub => vstd::wrapping::u8_specs::wrapping_sub(first, second),
        OpKind::Cmp => vstd::wrapping::u8_specs::wrapping_sub(first, second),
    }
}

/// The byte value an operation hands back: its result for add and subtract,
/// the untouched first operand for compare.
pub open spec fn spec_op8_out(kind: OpKind, first: u8, second: u8) -> u8 {
    match kind {
        OpKind::Add => spec_op8_result(kind, first, second),
        OpKind::Sub => spec_op8_result(kind, first, second),
        OpKind::Cmp => first,
    }
}

/// The wrapping arithmetic result an operation computes on words.
pub open spec fn spec_op16_result(kind: OpKind, first: u16, second: u16) -> u16 {
    match kind {
        OpKind::Add => vstd::wrapping::u16_specs::wrapping_add(first, second),
        OpKind::Sub => vstd::wrapping::u16_specs::wrapping_sub(first, second),
        OpKind::Cmp => vstd::wrapping::u16_specs::wrapping_sub(first, second),
    }
}

/// The word value an operation hands back: its result for add and subtract,
/// the untouched first operand for compare.
pub open spec fn spec_op16_out(kind: OpKind, first: u16, second: u16) -> u16 {
    match kind {
        OpKind::Add => spec_op16_result(kind, first, second),
        OpKind::Sub => spec_op16_result(kind, first, second),
        OpKind::Cmp => first,
    }
}

/// The machine with its flags set from a byte result: zero when the result
/// is zero, sign when its top bit is set.
pub open spec fn spec_flags8(m: Machine, result: u8) -> Machine {
    Machine { zero: result == 0, sign: result >= 0x80, ..m }
}

/// The machine with its flags set from a word result.
pub open spec fn spec_flags16(m: Machine, result: u16) -> Machine {
    Machine { zero: result == 0, sign: result >= 0x8000, ..m }
}

/// The top bit of a byte or word is set exactly when the value reaches the
/// signed boundary.
proof fn lemma_sign_bit(b: u8, w: u16)
    by (bit_vector)
    ensures
        (b & 0x80 != 0) == (b >= 0x80),
        (w & 0x8000 != 0) == (w >= 0x8000),
{
}

impl OpKind {
    /// Applies this operation to two byte operands: sets the zero and sign
    /// flags from the wrapping result, and returns the value to store (the
    /// first operand itself for compare). Nothing else in the machine moves.
    pub fn execute_byte(&self, state: &mut SimState, first: u8, second: u8) -> (r: u8)
        ensures
            r == spec_op8_out(*self, first, second),
            final(state)@ == spec_flags8(old(state)@, spec_op8_result(*self, first, second)),
            final(state).instr_len == old(state).instr_len,
    {
        match *self {
            OpKind::Add => {
                let result = first.wrapping_add(second);
                state.flags.zero = result == 0;
                state.flags.sign = result & 0x80 != 0;
                proof {
                    lemma_sign_bit(result, 0);
                }
                result
            },
            OpKind::Sub => {
                let result = first.wrapping_sub(second);
                state.flags.zero = result == 0;
                state.flags.sign = result & 0x80 != 0;
                proof {
                    lemma_sign_bit(result, 0);
                }
                result
            },
            OpKind::Cmp => {
                let result = first.wrapping_sub(second);
                state.flags.zero = result == 0;
                state.flags.sign = result & 0x80 != 0;
                proof {
                    lemma_sign_bit(result, 0);
                }
                first
            },
        }
    }

    /// Applies this operation to two word operands, as [`OpKind::execute_byte`]
    /// does for bytes.
    pub fn execute_word(&self, state: &mut SimState, first: u16, second: u16) -> (r: u16)
        ensures
            r == spec_op16_out(*self, first, second),
            final(state)@ == spec_flags16(old(state)@, spec_op16_result(*self, first, second)),
            final(state).instr_len == old(state).instr_len,
    {
        match *self {
            OpKind::Add => {
                let result = first.wrapping_add(second);
                state.flags.zero = result == 0;
                state.flags.sign = result & 0x8000 != 0;
                proof {
                    lemma_sign_bit(0, result);
                }
                result
            },
            OpKind::Sub => {
                let result = first.wrapping_sub(second);
                state.flags.zero = result == 0;
                state.flags.sign = result & 0x8000 != 0;
                proof {
                    lemma_sign_bit(0, result);
                }
                result
            },
            OpKind::Cmp => {
                let result = first.wrapping_sub(second);
                state.flags.zero = result == 0;
                state.flags.sign = result & 0x8000 != 0;
                proof {
                    lemma_sign_bit(0, result);
                }
                first
            },
        }
    }
}

/// Flag correctness across the full wraparound range: the flags computed
/// from any operation say whether the wrapping result is zero and whether
/// its top bit is set, and the result is exactly the modular sum or
/// difference.
pub proof fn lemma_flag_correctness(m: Machine, kind: OpKind, a8: u8, b8: u8, a16: u16, b16: u16)
    ensures
        spec_flags8(m, spec_op8_result(kind, a8, b8)).zero == (spec_op8_result(kind, a8, b8) == 0),
        spec_flags8(m, spec_op8_result(kind, a8, b8)).sign == (spec_op8_result(kind, a8, b8)
            >= 0x80),
        spec_flags16(m, spec_op16_result(kind, a16, b16)).zero == (spec_op16_result(
            kind,
            a16,
            b16,
        ) == 0),
        spec_flags16(m, spec_op16_result(kind, a16, b16)).sign == (spec_op16_result(kind, a16, b16)
            >= 0x8000),
        spec_op8_result(kind, a8, b8) as int == (if kind == OpKind::Add {
            (a8 + b8) % 0x100
        } else {
            (a8 - b8 + 0x100) % 0x100
        }),
        spec_op16_result(kind, a16, b16) as int == (if kind == OpKind::Add {
            (a16 + b16) % 0x10000
        } else {
            (a16 - b16 + 0x10000) % 0x10000
        }),
{
}

/// The boundary cases of the wraparound range: adding nothing to zero,
/// stepping zero down, and stepping the largest value up.
pub proof fn lemma_flag_boundaries()
    ensures
        spec_op8_result(OpKind::Add, 0, 0) == 0,
        spec_op8_result(OpKind::Sub, 0, 1) == 0xFF,
        spec_op8_result(OpKind::Add, 0xFF, 1) == 0,
        spec_op16_result(OpKind::Add, 0, 0) == 0,
        spec_op16_result(OpKind::Sub, 0, 1) == 0xFFFF,
        spec_op16_result(OpKind::Add, 0xFFFF, 1) == 0,
{
}

} // verus!
