//! Operand locations: registers, direct memory, effective addresses, and
//! immediates.

use vstd::prelude::*;
use vstd::string::StringExecFns;

use crate::decoder::eac::EffectiveAddress;

verus! {

/// One of the sixteen register names: eight 16-bit word registers and the
/// eight 8-bit halves of the first four of them.
#[derive(Clone, Copy, Debug, PartialEq, Eq, Structural)]
pub enum Reg {
    Ax,
    Cx,
    Dx,
    Bx,
    Sp,
    Bp,
    Si,
    Di,
    Al,
    Cl,
    Dl,
    Bl,
    Ah,
    Ch,
    Dh,
    Bh,
}

impl Reg {
    /// Whether this name denotes an 8-bit register half.
    pub open spec fn spec_is_byte(&self) -> bool {
        match *self {
            Reg::Al | Reg::Cl | Reg::Dl | Reg::Bl | Reg::Ah | Reg::Ch | Reg::Dh | Reg::Bh => true,
            _ => false,
        }
    }

    /// The fixed name of this register.
    pub open spec fn spec_text(&self) -> Seq<char> {
        match *self {
            Reg::Ax => "ax"@,
            Reg::Cx => "cx"@,
            Reg::Dx => "dx"@,
            Reg::Bx => "bx"@,
            Reg::Sp => "sp"@,
            Reg::Bp => "bp"@,
            Reg::Si => "si"@,
            Reg::Di => "di"@,
            Reg::Al => "al"@,
            Reg::Cl => "cl"@,
            Reg::Dl => "dl"@,
            Reg::Bl => "bl"@,
            Reg::Ah => "ah"@,
            Reg::Ch => "ch"@,
            Reg::Dh => "dh"@,
            Reg::Bh => "bh"@,
        }
    }

    /// Renders this register's fixed name.
    pub fn text(&self) -> (r: String)
        ensures
            r@ == self.spec_text(),
    {
        match *self {
            Reg::Ax => "ax".to_owned(),
            Reg::Cx => "cx".to_owned(),
            Reg::Dx => "dx".to_owned(),
            Reg::Bx => "bx".to_owned(),
            Reg::Sp => "sp".to_owned(),
            Reg::Bp => "bp".to_owned(),
            Reg::Si => "si".to_owned(),
            Reg::Di => "di".to_owned(),
            Reg::Al => "al".to_owned(),
            Reg::Cl => "cl".to_owned(),
            Reg::Dl => "dl".to_owned(),
            Reg::Bl => "bl".to_owned(),
            Reg::Ah => "ah".to_owned(),
            Reg::Ch => "ch".to_owned(),
            Reg::Dh => "dh".to_owned(),
            Reg::Bh => "bh".to_owned(),
        }
    }
}

/// The width of a transfer: one byte or one 16-bit word.
#[derive(Clone, Copy, Debug, PartialEq, Eq, Structural)]
pub enum Size {
    Byte,
    Word,
}

/// Any value source or destination an instruction can name: a register, a
/// direct memory address, an effective address, or an 8- or 16-bit immediate.
#[derive(Clone, Copy, Debug, PartialEq, Eq, Structural)]
pub enum Location {
    Reg(Reg),
    Mem(u16),
    Immediate16(u16),
    Immediate8(u8),
    Eac(EffectiveAddress),
}

impl Location {
    /// The width this operand carries on its own: intrinsic for registers and
    /// immediates, unknown for memory operands (their width is resolved by
    /// the counterpart operand).
    pub open spec fn spec_implied_size(&self) -> Option<Size> {
        match *self {
            Location::Reg(reg) => if reg.spec_is_byte() {
                Some(Size::Byte)
            } else {
                Some(Size::Word)
            },
            Location::Immediate8(_) => Some(Size::Byte),
            Location::Immediate16(_) => Some(Size::Word),
            Location::Mem(_) => None,
            Location::Eac(_) => None,
        }
    }

    /// The assembly spelling of this operand: a register name, a bracketed
    /// direct or effective address, or a bare immediate value.
    pub open spec fn spec_text(&self) -> Seq<char> {
        match *self {
            Location::Reg(reg) => reg.spec_text(),
            Location::Mem(addr) => "["@ + crate::text::spec_dec(addr as nat) + "]"@,
            Location::Immediate16(value) => crate::text::spec_dec(value as nat),
            Location::Immediate8(value) => crate::text::spec_dec(value as nat),
            Location::Eac(eac) => "["@ + eac.spec_text() + "]"@,
        }
    }

    /// Renders this operand as assembly text.
    pub fn text(&self) -> (r: String)
        ensures
            r@ == self.spec_text(),
    {
        match *self {
            Location::Reg(reg) => reg.text(),
            Location::Mem(addr) => {
                proof {
                    reveal_strlit("[");
                    reveal_strlit("]");
                }
                let mut s = "[".to_owned();
                let digits = crate::text::dec_u16(addr);
                s.append(digits.as_str());
                s.append("]");
                proof {
                    assert(s@ =~= self.spec_text());
                }
                s
            },
            Location::Immediate16(value) => crate::text::dec_u16(value),
            Location::Immediate8(value) => crate::text::dec_u16(value as u16),
            Location::Eac(eac) => {
                proof {
                    reveal_strlit("[");
                    reveal_strlit("]");
                }
                let mut s = "[".to_owned();
                let inner = eac.text();
                s.append(inner.as_str());
                s.append("]");
                proof {
                    assert(s@ =~= self.spec_text());
                }
                s
            },
        }
    }

    pub fn implied_size(&self) -> (r: Option<Size>)
        ensures
            r == self.spec_implied_size(),
    {
        match *self {
            Location::Reg(reg) => if crate::sim::is_byte(reg) {
                Some(Size::Byte)
            } else {
                Some(Size::Word)
            },
            Location::Immediate8(_) => Some(Size::Byte),
            Location::Immediate16(_) => Some(Size::Word),
            Location::Mem(_) => None,
            Location::Eac(_) => None,
        }
    }
}

} // verus!
