//! The short immediate-to-register move family: register in the opcode,
//! immediate following it.

use vstd::prelude::*;

use crate::Error;
use crate::decoder::eac::{lemma_small_fields, spec_le16};
use crate::decoder::loc::Location;
use crate::decoder::mov::{decode_reg, spec_reg};
use crate::decoder::state::Decoder;

verus! {

/// What decoding an immediate-to-register move at `pos` yields: the register
/// named in the opcode and an immediate sized by the opcode's width bit, with
/// the total encoded length.
pub open spec fn spec_decode_imm_to_reg(buf: Seq<u8>, pos: int) -> Result<
    ((Location, Location), int),
    Error,
> recommends 0 <= pos < buf.len() {
    let first = buf[pos];
    let w = (first >> 3) & 0b1;
    let reg = Location::Reg(spec_reg(w, first & 0b111));
    if w == 0 {
        if pos + 2 <= buf.len() {
            Ok(((reg, Location::Immediate8(buf[pos + 1])), 2))
        } else {
            Err(Error::OutOfBounds)
        }
    } else {
        if pos + 3 <= buf.len() {
            Ok(((reg, Location::Immediate16(spec_le16(buf[pos + 1], buf[pos + 2]))), 3))
        } else {
            Err(Error::OutOfBounds)
        }
    }
}

/// Decodes an immediate-to-register move: the opcode carries the width bit
/// and the register field, and one or two little-endian immediate bytes
/// follow.
pub fn decode_imm_to_reg<T: Decoder>(state: &mut T) -> (r: Result<(Location, Location), Error>)
    requires
        old(state).wf(),
        old(state).pending() == 0,
        old(state).pos() < old(state).buf().len(),
    ensures
        final(state).wf(),
        final(state).buf() == old(state).buf(),
        final(state).limit() == old(state).limit(),
        final(state).pos() == old(state).pos(),
        final(state).reset() == old(state).reset(),
        match spec_decode_imm_to_reg(old(state).buf(), old(state).pos() as int) {
            Ok(((dest, src), l)) => r == Ok::<(Location, Location), Error>((dest, src))
                && final(state).pending() == l,
            Err(e) => r == Err::<(Location, Location), Error>(e),
        },
{
    let first = match state.get_byte(0) {
        Ok(b) => b,
        Err(e) => {
            return Err(e);
        },
    };
    state.add_len(1);
    let w: u8 = (first & 0b00001000) >> 3;
    let reg_bits: u8 = first & 0b111;
    proof {
        lemma_small_fields(first);
    }
    let reg = decode_reg(w, reg_bits);
    if w == 0 {
        let second = match state.get_byte(1) {
            Ok(b) => b,
            Err(e) => {
                return Err(e);
            },
        };
        state.add_len(1);
        Ok((Location::Reg(reg), Location::Immediate8(second)))
    } else {
        let second = match state.get_byte(1) {
            Ok(b) => b,
            Err(e) => {
                return Err(e);
            },
        };
        let third = match state.get_byte(2) {
            Ok(b) => b,
            Err(e) => {
                return Err(e);
            },
        };
        state.add_len(2);
        let value: u16 = (third as u16) << 8 | (second as u16);
        Ok((Location::Reg(reg), Location::Immediate16(value)))
    }
}

} // verus!
