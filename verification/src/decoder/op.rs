//! The arithmetic-or-compare families: add, subtract and compare in their
//! register/memory, immediate and accumulator forms.

use vstd::prelude::*;
use vstd::string::StringExecFns;

use crate::Error;
use crate::decoder::eac::{lemma_small_fields, spec_le16};
use crate::decoder::instr::Instr;
use crate::decoder::loc::{Location, Reg};
use crate::decoder::rm_to_reg::{
    decode_rm_to_from_reg,
    decode_rm_to_reg,
    spec_decode_rm_to_from_reg,
    spec_decode_rm_to_reg,
};
use crate::decoder::state::Decoder;

verus! {

/// The three modeled arithmetic operations.
#[derive(Clone, Copy, Debug, PartialEq, Eq, Structural)]
pub enum OpKind {
    Add,
    Sub,
    Cmp,
}

/// An arithmetic-or-compare instruction with fully resolved operands.
#[derive(Clone, Copy, Debug, PartialEq, Eq, Structural)]
pub struct OpInstr {
    pub kind: OpKind,
    pub dest: Location,
    pub src: Location,
}

impl OpKind {
    /// The mnemonic of this operation.
    pub open spec fn spec_text(&self) -> Seq<char> {
        match *self {
            OpKind::Add => "add"@,
            OpKind::Sub => "sub"@,
            OpKind::Cmp => "cmp"@,
        }
    }

    /// Renders this operation's mnemonic.
    pub fn text(&self) -> (r: String)
        ensures
            r@ == self.spec_text(),
    {
        match *self {
            OpKind::Add => "add".to_owned(),
            OpKind::Sub => "sub".to_owned(),
            OpKind::Cmp => "cmp".to_owned(),
        }
    }
}

impl OpInstr {
    /// The assembly line for this instruction: the mnemonic, destination and
    /// source; an immediate written to memory carries a `byte` or `word`
    /// prefix naming the intended write width.
    pub open spec fn spec_text(&self) -> Seq<char> {
        match (self.dest, self.src) {
            (Location::Eac(_), Location::Immediate8(_))
            | (Location::Mem(_), Location::Immediate8(_)) => self.kind.spec_text() + " "@
                + self.dest.spec_text() + ", byte "@ + self.src.spec_text(),
            (Location::Eac(_), Location::Immediate16(_))
            | (Location::Mem(_), Location::Immediate16(_)) => self.kind.spec_text() + " "@
                + self.dest.spec_text() + ", word "@ + self.src.spec_text(),
            _ => self.kind.spec_text() + " "@ + self.dest.spec_text() + ", "@
                + self.src.spec_text(),
        }
    }

    /// Renders this instruction as one line of assembly text.
    pub fn text(&self) -> (r: String)
        ensures
            r@ == self.spec_text(),
    {
        proof {
            reveal_strlit(" ");
            reveal_strlit(", byte ");
            reveal_strlit(", word ");
            reveal_strlit(", ");
        }
        let mut s = self.kind.text();
        s.append(" ");
        let dest = self.dest.text();
        s.append(dest.as_str());
        match (&self.dest, &self.src) {
            (Location::Eac(_), Location::Immediate8(_))
            | (Location::Mem(_), Location::Immediate8(_)) => {
                s.append(", byte ");
            },
            (Location::Eac(_), Location::Immediate16(_))
            | (Location::Mem(_), Location::Immediate16(_)) => {
                s.append(", word ");
            },
            _ => {
                s.append(", ");
            },
        }
        let src = self.src.text();
        s.append(src.as_str());
        proof {
            assert(s@ =~= self.spec_text());
        }
        s
    }
}

/// The fixed table from a three-bit operation field to its kind; fields
/// outside the modeled set are an unrecognized opcode.
pub open spec fn spec_decode_op_kind(op_part: u8) -> Result<OpKind, Error> {
    if op_part == 0b000 {
        Ok(OpKind::Add)
    } else if op_part == 0b101 {
        Ok(OpKind::Sub)
    } else if op_part == 0b111 {
        Ok(OpKind::Cmp)
    } else {
        Err(Error::UnknownOpcode(op_part))
    }
}

/// Decodes a three-bit operation field into add, subtract or compare.
pub fn decode_op_kind(op_part: u8) -> (r: Result<OpKind, Error>)
    ensures
        r == spec_decode_op_kind(op_part),
{
    if op_part == 0b000 {
        Ok(OpKind::Add)
    } else if op_part == 0b101 {
        Ok(OpKind::Sub)
    } else if op_part == 0b111 {
        Ok(OpKind::Cmp)
    } else {
        Err(Error::UnknownOpcode(op_part))
    }
}

/// What decoding an immediate-to-accumulator arithmetic form at `pos`
/// yields: the operation named by the opcode's operation field, applied to
/// the byte or word accumulator, with the total encoded length. An
/// operation field outside the modeled set is an unrecognized opcode.
pub open spec fn spec_decode_imm_to_acc(buf: Seq<u8>, pos: int) -> Result<(Instr, int), Error>
    recommends
        0 <= pos < buf.len(),
{
    let first = buf[pos];
    match spec_decode_op_kind((first >> 3) & 0b111) {
        Ok(kind) => {
            let w = first & 0b1;
            if w == 0 {
                if pos + 2 <= buf.len() {
                    Ok(
                        (
                            Instr::Op(
                                OpInstr {
                                    kind,
                                    dest: Location::Reg(Reg::Al),
                                    src: Location::Immediate8(buf[pos + 1]),
                                },
                            ),
                            2,
                        ),
                    )
                } else {
                    Err(Error::OutOfBounds)
                }
            } else {
                if pos + 3 <= buf.len() {
                    Ok(
                        (
                            Instr::Op(
                                OpInstr {
                                    kind,
                                    dest: Location::Reg(Reg::Ax),
                                    src: Location::Immediate16(spec_le16(buf[pos + 1], buf[pos + 2])),
                                },
                            ),
                            3,
                        ),
                    )
                } else {
                    Err(Error::OutOfBounds)
                }
            }
        },
        Err(e) => Err(e),
    }
}

/// Decodes an immediate-to-accumulator arithmetic form: the operation field
/// picks add, subtract or compare, and the width bit picks the byte or word
/// accumulator and the immediate size.
fn decode_imm_to_acc<T: Decoder>(state: &mut T) -> (r: Result<Instr, Error>)
    requires
        old(state).wf(),
        old(state).pending() == 0,
        old(state).pos() < old(state).buf().len(),
    ensures
        final(state).wf(),
        final(state).buf() == old(state).buf(),
        final(state).limit() == old(state).limit(),
        final(state).pos() == old(state).pos(),
        final(state).reset() == old(state).reset(),
        match spec_decode_imm_to_acc(old(state).buf(), old(state).pos() as int) {
            Ok((i, l)) => r == Ok::<Instr, Error>(i) && final(state).pending() == l,
            Err(e) => r == Err::<Instr, Error>(e),
        },
{
    let byte = match state.get_byte(0) {
        Ok(b) => b,
        Err(e) => {
            return Err(e);
        },
    };
    proof {
        lemma_small_fields(byte);
    }
    let kind = match decode_op_kind((byte & 0b00111000) >> 3) {
        Ok(kind) => kind,
        Err(e) => {
            return Err(e);
        },
    };
    state.add_len(1);
    let w: u8 = byte & 0b1;
    if w == 0 {
        let data = match state.get_byte(1) {
            Ok(b) => b,
            Err(e) => {
                return Err(e);
            },
        };
        state.add_len(1);
        Ok(
            Instr::Op(
                OpInstr { kind, dest: Location::Reg(Reg::Al), src: Location::Immediate8(data) },
            ),
        )
    } else {
        let low = match state.get_byte(1) {
            Ok(b) => b,
            Err(e) => {
                return Err(e);
            },
        };
        let high = match state.get_byte(2) {
            Ok(b) => b,
            Err(e) => {
                return Err(e);
            },
        };
        state.add_len(2);
        Ok(
            Instr::Op(
                OpInstr {
                    kind,
                    dest: Location::Reg(Reg::Ax),
                    src: Location::Immediate16((high as u16) << 8 | (low as u16)),
                },
            ),
        )
    }
}

/// What decoding an arithmetic-or-compare instruction at `pos` yields, by
/// the fixed priority order of its families: `None` when the leading byte
/// belongs to none of them.
pub open spec fn spec_decode_op(buf: Seq<u8>, pos: int) -> Option<Result<(Instr, int), Error>>
    recommends
        0 <= pos < buf.len(),
{
    let byte = buf[pos];
    if byte & 0b11000100 == 0b00000000 {
        Some(
            match spec_decode_rm_to_from_reg(buf, pos) {
                Ok(((dest, src), l)) => match spec_decode_op_kind((byte >> 3) & 0b111) {
                    Ok(kind) => Ok((Instr::Op(OpInstr { kind, dest, src }), l)),
                    Err(e) => Err(e),
                },
                Err(e) => Err(e),
            },
        )
    } else if byte & 0b11000100 == 0b10000000 {
        Some(
            if pos + 1 >= buf.len() {
                Err(Error::OutOfBounds)
            } else {
                let op_part = (buf[pos + 1] >> 3) & 0b111;
                match spec_decode_rm_to_reg(buf, pos) {
                    Ok(((dest, src), l)) => match spec_decode_op_kind(op_part) {
                        Ok(kind) => Ok((Instr::Op(OpInstr { kind, dest, src }), l)),
                        Err(e) => Err(e),
                    },
                    Err(e) => Err(e),
                }
            },
        )
    } else if byte & 0b11000110 == 0b00000100 {
        Some(spec_decode_imm_to_acc(buf, pos))
    } else {
        None
    }
}

/// Decodes an arithmetic-or-compare instruction when the leading byte
/// belongs to one of its three families; reports `None` to let the next
/// family try.
pub fn decode_op<T: Decoder>(state: &mut T) -> (r: Option<Result<Instr, Error>>)
    requires
        old(state).wf(),
        old(state).pending() == 0,
        old(state).pos() < old(state).buf().len(),
    ensures
        final(state).wf(),
        final(state).buf() == old(state).buf(),
        final(state).limit() == old(state).limit(),
        final(state).pos() == old(state).pos(),
        final(state).reset() == old(state).reset(),
        match spec_decode_op(old(state).buf(), old(state).pos() as int) {
            Some(Ok((i, l))) => r == Some(Ok::<Instr, Error>(i)) && final(state).pending() == l,
            Some(Err(e)) => r == Some(Err::<Instr, Error>(e)),
            None => r == None::<Result<Instr, Error>> && final(state).pending() == 0,
        },
{
    let byte = match state.get_byte(0) {
        Ok(b) => b,
        Err(e) => {
            return Some(Err(e));
        },
    };
    proof {
        lemma_small_fields(byte);
    }
    if byte & 0b11000100 == 0b00000000 {
        let (dest, src) = match decode_rm_to_from_reg(state) {
            Ok(pair) => pair,
            Err(e) => {
                return Some(Err(e));
            },
        };
        let kind_bits: u8 = (byte & 0b00111000) >> 3;
        match decode_op_kind(kind_bits) {
            Ok(kind) => Some(Ok(Instr::Op(OpInstr { kind, dest, src }))),
            Err(e) => Some(Err(e)),
        }
    } else if byte & 0b11000100 == 0b10000000 {
        let second = match state.get_byte(1) {
            Ok(b) => b,
            Err(e) => {
                return Some(Err(e));
            },
        };
        proof {
            lemma_small_fields(second);
        }
        let op_bits: u8 = (second & 0b00111000) >> 3;
        let (dest, src) = match decode_rm_to_reg(state) {
            Ok(pair) => pair,
            Err(e) => {
                return Some(Err(e));
            },
        };
        match decode_op_kind(op_bits) {
            Ok(kind) => Some(Ok(Instr::Op(OpInstr { kind, dest, src }))),
            Err(e) => Some(Err(e)),
        }
    } else if byte & 0b11000110 == 0b00000100 {
        match decode_imm_to_acc(state) {
            Ok(i) => Some(Ok(i)),
            Err(e) => Some(Err(e)),
        }
    } else {
        None
    }
}

} // verus!
