//! Decoding of mod/reg/rm operand forms, shared by the move and
//! arithmetic-or-compare families.

use vstd::prelude::*;

use crate::Error;
use crate::decoder::eac::{decode_eac, lemma_small_fields, spec_decode_eac, spec_le16};
use crate::decoder::loc::Location;
use crate::decoder::mov::{decode_reg, spec_reg};
use crate::decoder::state::Decoder;

verus! {

/// What the register-or-memory half of a mod/reg/rm byte at `pos + 1`
/// denotes, with the count of address bytes it appends beyond the two
/// leading bytes: a register under mode `11`, a direct address under the
/// mode-`00` special case, and an effective address otherwise.
pub open spec fn spec_decode_rm(buf: Seq<u8>, pos: int) -> Result<(Location, int), Error>
    recommends
        0 <= pos,
        pos + 1 < buf.len(),
{
    let first = buf[pos];
    let second = buf[pos + 1];
    let w = first & 0b1;
    let md = second >> 6;
    if md != 0b11 {
        if (second & 0b111) == 0b110 && md == 0b00 {
            if pos + 4 <= buf.len() {
                Ok((Location::Mem(spec_le16(buf[pos + 2], buf[pos + 3])), 2))
            } else {
                Err(Error::OutOfBounds)
            }
        } else {
            match spec_decode_eac(buf, pos) {
                Ok((eac, extra)) => Ok((Location::Eac(eac), extra)),
                Err(e) => Err(e),
            }
        }
    } else {
        Ok((Location::Reg(spec_reg(w, second & 0b111)), 0))
    }
}

/// Decodes the register-or-memory half of a mod/reg/rm byte: a register
/// under mode `11`, a 16-bit direct address under the mode-`00` special
/// case, and an effective address with its displacement otherwise.
///
/// Expects the two leading bytes already counted.
pub fn decode_rm<T: Decoder>(state: &mut T) -> (r: Result<Location, Error>)
    requires
        old(state).wf(),
        old(state).pending() == 2,
        old(state).pos() + 1 < old(state).buf().len(),
    ensures
        final(state).wf(),
        final(state).buf() == old(state).buf(),
        final(state).limit() == old(state).limit(),
        final(state).pos() == old(state).pos(),
        final(state).reset() == old(state).reset(),
        match spec_decode_rm(old(state).buf(), old(state).pos() as int) {
            Ok((loc, extra)) => r == Ok::<Location, Error>(loc) && final(state).pending() == 2
                + extra,
            Err(e) => r == Err::<Location, Error>(e),
        },
{
    let first = match state.get_byte(0) {
        Ok(b) => b,
        Err(e) => {
            return Err(e);
        },
    };
    let w: u8 = first & 0b1;
    let second = match state.get_byte(1) {
        Ok(b) => b,
        Err(e) => {
            return Err(e);
        },
    };
    let mod_: u8 = (second & 0b11000000) >> 6;
    proof {
        lemma_small_fields(first);
        lemma_small_fields(second);
    }
    if mod_ != 0b11 {
        if (second & 0b111) == 0b110 && mod_ == 0b00 {
            let low = match state.get_byte(2) {
                Ok(b) => b,
                Err(e) => {
                    return Err(e);
                },
            };
            let high = match state.get_byte(3) {
                Ok(b) => b,
                Err(e) => {
                    return Err(e);
                },
            };
            state.add_len(2);
            Ok(Location::Mem((high as u16) << 8 | (low as u16)))
        } else {
            match decode_eac(state) {
                Ok(eac) => Ok(Location::Eac(eac)),
                Err(e) => Err(e),
            }
        }
    } else {
        Ok(Location::Reg(decode_reg(w, second & 0b111)))
    }
}

/// What decoding a register/memory-to-or-from-register form at `pos` yields:
/// the destination and source picked by the direction bit, and the total
/// encoded length.
pub open spec fn spec_decode_rm_to_from_reg(buf: Seq<u8>, pos: int) -> Result<
    ((Location, Location), int),
    Error,
> recommends 0 <= pos < buf.len() {
    if pos + 1 >= buf.len() {
        Err(Error::OutOfBounds)
    } else {
        let first = buf[pos];
        let second = buf[pos + 1];
        let d = first & 0b10;
        let w = first & 0b1;
        let reg = Location::Reg(spec_reg(w, (second >> 3) & 0b111));
        match spec_decode_rm(buf, pos) {
            Ok((rm, extra)) => if d == 0 {
                Ok(((rm, reg), 2 + extra))
            } else {
                Ok(((reg, rm), 2 + extra))
            },
            Err(e) => Err(e),
        }
    }
}

/// Decodes a register/memory-to-or-from-register form: the direction bit
/// picks which decoded operand is the destination, the width bit applies
/// throughout.
pub fn decode_rm_to_from_reg<T: Decoder>(state: &mut T) -> (r: Result<(Location, Location), Error>)
    requires
        old(state).wf(),
        old(state).pending() == 0,
        old(state).pos() < old(state).buf().len(),
    ensures
        final(state).wf(),
        final(state).buf() == old(state).buf(),
        final(state).limit() == old(state).limit(),
        final(state).pos() == old(state).pos(),
        final(state).reset() == old(state).reset(),
        match spec_decode_rm_to_from_reg(old(state).buf(), old(state).pos() as int) {
            Ok(((dest, src), l)) => r == Ok::<(Location, Location), Error>((dest, src))
                && final(state).pending() == l,
            Err(e) => r == Err::<(Location, Location), Error>(e),
        },
{
    let first = match state.get_byte(0) {
        Ok(b) => b,
        Err(e) => {
            return Err(e);
        },
    };
    let second = match state.get_byte(1) {
        Ok(b) => b,
        Err(e) => {
            return Err(e);
        },
    };
    state.add_len(2);
    let d: u8 = first & 0b10;
    let w: u8 = first & 0b1;
    proof {
        lemma_small_fields(first);
        lemma_small_fields(second);
    }
    let reg = decode_reg(w, (second & 0b00111000) >> 3);
    let rm = match decode_rm(state) {
        Ok(loc) => loc,
        Err(e) => {
            return Err(e);
        },
    };
    if d == 0 {
        Ok((rm, Location::Reg(reg)))
    } else {
        Ok((Location::Reg(reg), rm))
    }
}

/// What decoding an immediate-to-register/memory arithmetic form at `pos`
/// yields: the register-or-memory destination, the immediate source sized by
/// the sign and width bits, and the total encoded length.
pub open spec fn spec_decode_rm_to_reg(buf: Seq<u8>, pos: int) -> Result<
    ((Location, Location), int),
    Error,
> recommends 0 <= pos < buf.len() {
    if pos + 1 >= buf.len() {
        Err(Error::OutOfBounds)
    } else {
        let first = buf[pos];
        let sw = first & 0b11;
        match spec_decode_rm(buf, pos) {
            Ok((rm, extra)) => {
                let ipos = pos + 2 + extra;
                if sw == 0b01 {
                    if ipos + 2 <= buf.len() {
                        Ok(
                            (
                                (rm, Location::Immediate16(spec_le16(buf[ipos], buf[ipos + 1]))),
                                2 + extra + 2,
                            ),
                        )
                    } else {
                        Err(Error::OutOfBounds)
                    }
                } else {
                    if ipos + 1 <= buf.len() {
                        Ok(((rm, Location::Immediate8(buf[ipos])), 2 + extra + 1))
                    } else {
                        Err(Error::OutOfBounds)
                    }
                }
            },
            Err(e) => Err(e),
        }
    }
}

/// Decodes an immediate-to-register/memory arithmetic form: the sign and
/// width bits pick a full 16-bit immediate only for the `01` combination,
/// an 8-bit immediate otherwise.
pub fn decode_rm_to_reg<T: Decoder>(state: &mut T) -> (r: Result<(Location, Location), Error>)
    requires
        old(state).wf(),
        old(state).pending() == 0,
        old(state).pos() < old(state).buf().len(),
    ensures
        final(state).wf(),
        final(state).buf() == old(state).buf(),
        final(state).limit() == old(state).limit(),
        final(state).pos() == old(state).pos(),
        final(state).reset() == old(state).reset(),
        match spec_decode_rm_to_reg(old(state).buf(), old(state).pos() as int) {
            Ok(((dest, src), l)) => r == Ok::<(Location, Location), Error>((dest, src))
                && final(state).pending() == l,
            Err(e) => r == Err::<(Location, Location), Error>(e),
        },
{
    let first = match state.get_byte(0) {
        Ok(b) => b,
        Err(e) => {
            return Err(e);
        },
    };
    match state.get_byte(1) {
        Ok(_) => (),
        Err(e) => {
            return Err(e);
        },
    };
    state.add_len(2);
    let sw: u8 = first & 0b11;
    let rm = match decode_rm(state) {
        Ok(loc) => loc,
        Err(e) => {
            return Err(e);
        },
    };
    let len = state.get_instr_len();
    let imm = if sw == 0b01 {
        let low = match state.get_byte(len) {
            Ok(b) => b,
            Err(e) => {
                return Err(e);
            },
        };
        let high = match state.get_byte(len + 1) {
            Ok(b) => b,
            Err(e) => {
                return Err(e);
            },
        };
        state.add_len(2);
        Location::Immediate16((high as u16) << 8 | (low as u16))
    } else {
        let low = match state.get_byte(len) {
            Ok(b) => b,
            Err(e) => {
                return Err(e);
            },
        };
        state.add_len(1);
        Location::Immediate8(low)
    };
    Ok((rm, imm))
}

} // verus!
