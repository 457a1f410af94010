//! Data-move instructions and the fixed register-name table.

use vstd::prelude::*;
use vstd::string::StringExecFns;

use crate::Error;
use crate::decoder::imm_to_reg::{decode_imm_to_reg, spec_decode_imm_to_reg};
use crate::decoder::imm_to_rm::{decode_imm_to_rm, spec_decode_imm_to_rm};
use crate::decoder::instr::Instr;
use crate::decoder::loc::{Location, Reg};
use crate::decoder::acc::{
    decode_acc_to_mem,
    decode_mem_to_acc,
    spec_decode_acc_to_mem,
    spec_decode_mem_to_acc,
};
use crate::decoder::rm_to_reg::{decode_rm_to_from_reg, spec_decode_rm_to_from_reg};
use crate::decoder::state::Decoder;

verus! {

/// A data move with fully resolved destination and source operands.
#[derive(Clone, Copy, Debug, PartialEq, Eq, Structural)]
pub struct MoveInstr {
    pub dest: Location,
    pub src: Location,
}

impl MoveInstr {
    /// The assembly line for this move: destination and source after the
    /// mnemonic; an immediate written to memory carries a `byte` or `word`
    /// prefix naming the intended write width.
    pub open spec fn spec_text(&self) -> Seq<char> {
        match (self.dest, self.src) {
            (Location::Eac(_), Location::Immediate8(_))
            | (Location::Mem(_), Location::Immediate8(_)) => "mov "@ + self.dest.spec_text()
                + ", byte "@ + self.src.spec_text(),
            (Location::Eac(_), Location::Immediate16(_))
            | (Location::Mem(_), Location::Immediate16(_)) => "mov "@ + self.dest.spec_text()
                + ", word "@ + self.src.spec_text(),
            _ => "mov "@ + self.dest.spec_text() + ", "@ + self.src.spec_text(),
        }
    }

    /// Renders this move as one line of assembly text.
    pub fn text(&self) -> (r: String)
        ensures
            r@ == self.spec_text(),
    {
        proof {
            reveal_strlit("mov ");
            reveal_strlit(", byte ");
            reveal_strlit(", word ");
            reveal_strlit(", ");
        }
        let mut s = "mov ".to_owned();
        let dest = self.dest.text();
        s.append(dest.as_str());
        match (&self.dest, &self.src) {
            (Location::Eac(_), Location::Immediate8(_))
            | (Location::Mem(_), Location::Immediate8(_)) => {
                s.append(", byte ");
            },
            (Location::Eac(_), Location::Immediate16(_))
            | (Location::Mem(_), Location::Immediate16(_)) => {
                s.append(", word ");
            },
            _ => {
                s.append(", ");
            },
        }
        let src = self.src.text();
        s.append(src.as_str());
        proof {
            assert(s@ =~= self.spec_text());
        }
        s
    }
}

/// The fixed width-dependent lookup from a three-bit register field to one of
/// the sixteen register names: word registers when the width bit is set, byte
/// halves when it is clear.
pub open spec fn spec_reg(w: u8, reg: u8) -> Reg {
    if w == 1 {
        if reg == 0 {
            Reg::Ax
        } else if reg == 1 {
            Reg::Cx
        } else if reg == 2 {
            Reg::Dx
        } else if reg == 3 {
            Reg::Bx
        } else if reg == 4 {
            Reg::Sp
        } else if reg == 5 {
            Reg::Bp
        } else if reg == 6 {
            Reg::Si
        } else {
            Reg::Di
        }
    } else {
        if reg == 0 {
            Reg::Al
        } else if reg == 1 {
            Reg::Cl
        } else if reg == 2 {
            Reg::Dl
        } else if reg == 3 {
            Reg::Bl
        } else if reg == 4 {
            Reg::Ah
        } else if reg == 5 {
            Reg::Ch
        } else if reg == 6 {
            Reg::Dh
        } else {
            Reg::Bh
        }
    }
}

/// Decodes a three-bit register field under the given width bit.
pub fn decode_reg(w: u8, reg: u8) -> (r: Reg)
    requires
        w < 2,
        reg < 8,
    ensures
        r == spec_reg(w, reg),
{
    if w == 1 {
        if reg == 0 {
            Reg::Ax
        } else if reg == 1 {
            Reg::Cx
        } else if reg == 2 {
            Reg::Dx
        } else if reg == 3 {
            Reg::Bx
        } else if reg == 4 {
            Reg::Sp
        } else if reg == 5 {
            Reg::Bp
        } else if reg == 6 {
            Reg::Si
        } else {
            Reg::Di
        }
    } else {
        if reg == 0 {
            Reg::Al
        } else if reg == 1 {
            Reg::Cl
        } else if reg == 2 {
            Reg::Dl
        } else if reg == 3 {
            Reg::Bl
        } else if reg == 4 {
            Reg::Ah
        } else if reg == 5 {
            Reg::Ch
        } else if reg == 6 {
            Reg::Dh
        } else {
            Reg::Bh
        }
    }
}

/// What decoding a data-move instruction at `pos` yields, by the fixed
/// priority order of the move families: `None` when the leading byte belongs
/// to no move family.
pub open spec fn spec_decode_mov(buf: Seq<u8>, pos: int) -> Option<
    Result<(Instr, int), Error>,
> recommends 0 <= pos < buf.len() {
    let byte = buf[pos];
    if byte & 0b11111100 == 0b10001000 {
        Some(
            match spec_decode_rm_to_from_reg(buf, pos) {
                Ok(((dest, src), l)) => Ok((Instr::Mov(MoveInstr { dest, src }), l)),
                Err(e) => Err(e),
            },
        )
    } else if byte & 0b11110000 == 0b10110000 {
        Some(
            match spec_decode_imm_to_reg(buf, pos) {
                Ok(((dest, src), l)) => Ok((Instr::Mov(MoveInstr { dest, src }), l)),
                Err(e) => Err(e),
            },
        )
    } else if byte & 0b11111110 == 0b11000110 {
        Some(
            match spec_decode_imm_to_rm(buf, pos) {
                Ok(((dest, src), l)) => Ok((Instr::Mov(MoveInstr { dest, src }), l)),
                Err(e) => Err(e),
            },
        )
    } else if byte & 0b11111110 == 0b10100000 {
        Some(
            match spec_decode_mem_to_acc(buf, pos) {
                Ok((mv, l)) => Ok((Instr::Mov(mv), l)),
                Err(e) => Err(e),
            },
        )
    } else if byte & 0b11111110 == 0b10100010 {
        Some(
            match spec_decode_acc_to_mem(buf, pos) {
                Ok((mv, l)) => Ok((Instr::Mov(mv), l)),
                Err(e) => Err(e),
            },
        )
    } else {
        None
    }
}

/// Decodes a data-move instruction when the leading byte belongs to one of
/// the five move families; reports `None` to let the next family try.
pub fn decode_mov<T: Decoder>(state: &mut T) -> (r: Option<Result<Instr, Error>>)
    requires
        old(state).wf(),
        old(state).pending() == 0,
        old(state).pos() < old(state).buf().len(),
    ensures
        final(state).wf(),
        final(state).buf() == old(state).buf(),
        final(state).limit() == old(state).limit(),
        final(state).pos() == old(state).pos(),
        final(state).reset() == old(state).reset(),
        match spec_decode_mov(old(state).buf(), old(state).pos() as int) {
            Some(Ok((i, l))) => r == Some(Ok::<Instr, Error>(i)) && final(state).pending() == l,
            Some(Err(e)) => r == Some(Err::<Instr, Error>(e)),
            None => r == None::<Result<Instr, Error>> && final(state).pending() == 0,
        },
{
    let byte = match state.get_byte(0) {
        Ok(b) => b,
        Err(e) => {
            return Some(Err(e));
        },
    };
    if byte & 0b11111100 == 0b10001000 {
        match decode_rm_to_from_reg(state) {
            Ok((dest, src)) => Some(Ok(Instr::Mov(MoveInstr { dest, src }))),
            Err(e) => Some(Err(e)),
        }
    } else if byte & 0b11110000 == 0b10110000 {
        match decode_imm_to_reg(state) {
            Ok((dest, src)) => Some(Ok(Instr::Mov(MoveInstr { dest, src }))),
            Err(e) => Some(Err(e)),
        }
    } else if byte & 0b11111110 == 0b11000110 {
        match decode_imm_to_rm(state) {
            Ok((dest, src)) => Some(Ok(Instr::Mov(MoveInstr { dest, src }))),
            Err(e) => Some(Err(e)),
        }
    } else if byte & 0b11111110 == 0b10100000 {
        match decode_mem_to_acc(state) {
            Ok(mv) => Some(Ok(Instr::Mov(mv))),
            Err(e) => Some(Err(e)),
        }
    } else if byte & 0b11111110 == 0b10100010 {
        match decode_acc_to_mem(state) {
            Ok(mv) => Some(Ok(Instr::Mov(mv))),
            Err(e) => Some(Err(e)),
        }
    } else {
        None
    }
}

} // verus!
