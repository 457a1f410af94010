//! The two tracked flags, and the execution of arithmetic-or-compare
//! instructions against the machine.

use vstd::prelude::*;

use crate::Error;
use crate::decoder::loc::{Location, Reg, Size};
use crate::decoder::op::{OpInstr, OpKind};
use crate::sim::op_kind::{
    spec_flags8,
    spec_flags16,
    spec_op8_out,
    spec_op8_result,
    spec_op16_out,
    spec_op16_result,
};
use crate::sim::{
    Machine,
    SimState,
    is_byte,
    spec_get_reg8,
    spec_get_reg16,
    spec_get_value_byte,
    spec_get_value_word,
    spec_set_reg8,
    spec_set_reg16,
    spec_set_value_byte,
    spec_set_value_word,
};

verus! {

/// The two tracked machine flags: result-was-zero and result-sign-bit.
#[derive(Clone, Copy, Debug, PartialEq, Eq, Structural)]
pub struct Flags {
    pub zero: bool,
    pub sign: bool,
}

impl Default for Flags {
    /// Both flags clear.
    fn default() -> (r: Self)
        ensures
            r.zero == false,
            r.sign == false,
    {
        Flags { zero: false, sign: false }
    }
}

/// The sign extension of a byte to a word.
pub open spec fn spec_sext8(value: u8) -> u16 {
    ((value as i8) as i16) as u16
}

/// The machine after an arithmetic-or-compare instruction, or the fault it
/// meets. The width is implied by a register destination; for a memory
/// destination it is the source operand's intrinsic width, defaulting to a
/// word when the source is also memory. An 8-bit immediate against a word
/// register is sign-extended; against a memory destination it asks for a
/// byte-wide operation. Add and subtract write the result back, compare only
/// sets the flags. A write to an immediate or a width mismatch between
/// register operands is a fault, and a faulting instruction leaves the
/// machine untouched.
pub open spec fn spec_exec_op(m: Machine, op: OpInstr) -> Result<Machine, Error> {
    match op.dest {
        Location::Reg(dest) => if dest.spec_is_byte() {
            match spec_get_value_byte(m, op.src) {
                Ok(b) => {
                    let a = spec_get_reg8(m, dest);
                    Ok(
                        spec_set_reg8(
                            spec_flags8(m, spec_op8_result(op.kind, a, b)),
                            dest,
                            spec_op8_out(op.kind, a, b),
                        ),
                    )
                },
                Err(e) => Err(e),
            }
        } else {
            let src_read = match op.src {
                Location::Immediate8(value) => Ok(spec_sext8(value)),
                _ => spec_get_value_word(m, op.src),
            };
            match src_read {
                Ok(b) => {
                    let a = spec_get_reg16(m, dest);
                    Ok(
                        spec_set_reg16(
                            spec_flags16(m, spec_op16_result(op.kind, a, b)),
                            dest,
                            spec_op16_out(op.kind, a, b),
                        ),
                    )
                },
                Err(e) => Err(e),
            }
        },
        Location::Mem(_) | Location::Eac(_) => {
            let width = match op.src.spec_implied_size() {
                Some(size) => size,
                None => Size::Word,
            };
            if width == Size::Word {
                match spec_get_value_word(m, op.src) {
                    Ok(b) => match spec_get_value_word(m, op.dest) {
                        Ok(a) => {
                            let flagged = spec_flags16(m, spec_op16_result(op.kind, a, b));
                            if op.kind == OpKind::Cmp {
                                Ok(flagged)
                            } else {
                                spec_set_value_word(flagged, op.dest, spec_op16_out(op.kind, a, b))
                            }
                        },
                        Err(e) => Err(e),
                    },
                    Err(e) => Err(e),
                }
            } else {
                match spec_get_value_byte(m, op.src) {
                    Ok(b) => match spec_get_value_byte(m, op.dest) {
                        Ok(a) => {
                            let flagged = spec_flags8(m, spec_op8_result(op.kind, a, b));
                            if op.kind == OpKind::Cmp {
                                Ok(flagged)
                            } else {
                                spec_set_value_byte(flagged, op.dest, spec_op8_out(op.kind, a, b))
                            }
                        },
                        Err(e) => Err(e),
                    },
                    Err(e) => Err(e),
                }
            }
        },
        Location::Immediate8(_) | Location::Immediate16(_) => Err(Error::InvalidOperand),
    }
}

impl OpInstr {
    /// Applies this arithmetic-or-compare instruction to the machine: both
    /// operands are read at the implied width, the flags are set from the
    /// wrapping result, and add and subtract write it back. On a fault
    /// nothing is changed.
    pub fn execute(&self, state: &mut SimState) -> (r: Result<(), Error>)
        ensures
            match spec_exec_op(old(state)@, *self) {
                Ok(m2) => r == Ok::<(), Error>(()) && final(state)@ == m2,
                Err(e) => r == Err::<(), Error>(e) && final(state)@ == old(state)@,
            },
            final(state).instr_len == old(state).instr_len,
    {
        match &self.dest {
            Location::Reg(dest) => {
                if is_byte(*dest) {
                    let value = match state.get_value_byte(&self.src) {
                        Ok(v) => v,
                        Err(e) => {
                            return Err(e);
                        },
                    };
                    let current = state.get_register_8(*dest);
                    let res = self.kind.execute_byte(state, current, value);
                    state.set_register_8(*dest, res);
                    Ok(())
                } else {
                    let value: u16 = match &self.src {
                        Location::Immediate8(v) => {
                            let signed: i8 = #[verifier::truncate] (*v as i8);
                            #[verifier::truncate] ((signed as i16) as u16)
                        },
                        _ => {
                            match state.get_value_word(&self.src) {
                                Ok(v) => v,
                                Err(e) => {
                                    return Err(e);
                                },
                            }
                        },
                    };
                    let current = state.get_register_16(*dest);
                    let res = self.kind.execute_word(state, current, value);
                    state.set_register_16(*dest, res);
                    Ok(())
                }
            },
            Location::Mem(_) | Location::Eac(_) => {
                let width = match self.src.implied_size() {
                    Some(size) => size,
                    None => Size::Word,
                };
                if width == Size::Word {
                    let value = match state.get_value_word(&self.src) {
                        Ok(v) => v,
                        Err(e) => {
                            return Err(e);
                        },
                    };
                    let current = match state.get_value_word(&self.dest) {
                        Ok(v) => v,
                        Err(e) => {
                            return Err(e);
                        },
                    };
                    let res = self.kind.execute_word(state, current, value);
                    match self.kind {
                        OpKind::Cmp => Ok(()),
                        _ => state.set_value_word(&self.dest, res),
                    }
                } else {
                    let value = match state.get_value_byte(&self.src) {
                        Ok(v) => v,
                        Err(e) => {
                            return Err(e);
                        },
                    };
                    let current = match state.get_value_byte(&self.dest) {
                        Ok(v) => v,
                        Err(e) => {
                            return Err(e);
                        },
                    };
                    let res = self.kind.execute_byte(state, current, value);
                    match self.kind {
                        OpKind::Cmp => Ok(()),
                        _ => state.set_value_byte(&self.dest, res),
                    }
                }
            },
            Location::Immediate8(_) | Location::Immediate16(_) => Err(Error::InvalidOperand),
        }
    }
}

/// Storing back the very value a register holds leaves the word unchanged.
proof fn lemma_reassemble(x: u16)
    by (bit_vector)
    ensures
        (x & 0xFF00) | ((x as u8) as u16) == x,
        (x & 0x00FF) | ((((x >> 8) as u8) as u16) << 8) == x,
{
}

/// Compare never mutates: executing a compare leaves every register and all
/// memory exactly as it was; only the two flags move.
pub proof fn lemma_cmp_non_mutation(m: Machine, op: OpInstr)
    requires
        op.kind == OpKind::Cmp,
    ensures
        match spec_exec_op(m, op) {
            Ok(m2) => m2 == Machine { zero: m2.zero, sign: m2.sign, ..m },
            Err(_) => true,
        },
{
    match op.dest {
        Location::Reg(dest) => {
            match dest {
                Reg::Al | Reg::Ah => lemma_reassemble(m.ax),
                Reg::Bl | Reg::Bh => lemma_reassemble(m.bx),
                Reg::Cl | Reg::Ch => lemma_reassemble(m.cx),
                Reg::Dl | Reg::Dh => lemma_reassemble(m.dx),
                _ => (),
            }
        },
        _ => (),
    }
}

} // verus!
