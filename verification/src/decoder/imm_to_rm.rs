//! The immediate-to-register/memory move family: a mod/reg/rm destination
//! followed by an immediate sized by the opcode's width bit.

use vstd::prelude::*;

use crate::Error;
use crate::decoder::eac::spec_le16;
use crate::decoder::loc::Location;
use crate::decoder::rm_to_reg::{decode_rm, spec_decode_rm};
use crate::decoder::state::Decoder;

verus! {

/// What decoding the trailing immediate of an instruction at `pos` yields,
/// with `consumed` bytes already counted before it: the immediate operand and
/// the count of bytes it appends, sized by the width bit of the opcode.
pub open spec fn spec_decode_imm(buf: Seq<u8>, pos: int, consumed: int) -> Result<
    (Location, int),
    Error,
> recommends 0 <= pos < buf.len(), 2 <= consumed {
    let w = buf[pos] & 0b1;
    if w == 0 {
        if pos + consumed + 1 <= buf.len() {
            Ok((Location::Immediate8(buf[pos + consumed]), 1))
        } else {
            Err(Error::OutOfBounds)
        }
    } else {
        if pos + consumed + 2 <= buf.len() {
            Ok(
                (
                    Location::Immediate16(spec_le16(buf[pos + consumed], buf[pos + consumed + 1])),
                    2,
                ),
            )
        } else {
            Err(Error::OutOfBounds)
        }
    }
}

/// Decodes the immediate that follows any address bytes: one byte under a
/// clear width bit, two little-endian bytes under a set one.
fn decode_imm<T: Decoder>(state: &mut T) -> (r: Result<Location, Error>)
    requires
        old(state).wf(),
        2 <= old(state).pending() <= 6,
        old(state).pos() < old(state).buf().len(),
    ensures
        final(state).wf(),
        final(state).buf() == old(state).buf(),
        final(state).limit() == old(state).limit(),
        final(state).pos() == old(state).pos(),
        final(state).reset() == old(state).reset(),
        match spec_decode_imm(
            old(state).buf(),
            old(state).pos() as int,
            old(state).pending() as int,
        ) {
            Ok((loc, n)) => r == Ok::<Location, Error>(loc) && final(state).pending() == old(
                state,
            ).pending() + n,
            Err(e) => r == Err::<Location, Error>(e),
        },
{
    let first = match state.get_byte(0) {
        Ok(b) => b,
        Err(e) => {
            return Err(e);
        },
    };
    let w: u8 = first & 0b1;
    let len = state.get_instr_len();
    if w == 0 {
        let data = match state.get_byte(len) {
            Ok(b) => b,
            Err(e) => {
                return Err(e);
            },
        };
        state.add_len(1);
        Ok(Location::Immediate8(data))
    } else {
        let low = match state.get_byte(len) {
            Ok(b) => b,
            Err(e) => {
                return Err(e);
            },
        };
        let high = match state.get_byte(len + 1) {
            Ok(b) => b,
            Err(e) => {
                return Err(e);
            },
        };
        state.add_len(2);
        Ok(Location::Immediate16((high as u16) << 8 | (low as u16)))
    }
}

/// What decoding an immediate-to-register/memory move at `pos` yields: the
/// mod/reg/rm destination, the immediate source, and the total encoded
/// length.
pub open spec fn spec_decode_imm_to_rm(buf: Seq<u8>, pos: int) -> Result<
    ((Location, Location), int),
    Error,
> recommends 0 <= pos < buf.len() {
    if pos + 1 >= buf.len() {
        Err(Error::OutOfBounds)
    } else {
        match spec_decode_rm(buf, pos) {
            Ok((dest, extra)) => match spec_decode_imm(buf, pos, 2 + extra) {
                Ok((src, n)) => Ok(((dest, src), 2 + extra + n)),
                Err(e) => Err(e),
            },
            Err(e) => Err(e),
        }
    }
}

/// Decodes an immediate-to-register/memory move: the mod/reg/rm byte picks
/// the destination, and the immediate follows any address bytes.
pub fn decode_imm_to_rm<T: Decoder>(state: &mut T) -> (r: Result<(Location, Location), Error>)
    requires
        old(state).wf(),
        old(state).pending() == 0,
        old(state).pos() < old(state).buf().len(),
    ensures
        final(state).wf(),
        final(state).buf() == old(state).buf(),
        final(state).limit() == old(state).limit(),
        final(state).pos() == old(state).pos(),
        final(state).reset() == old(state).reset(),
        match spec_decode_imm_to_rm(old(state).buf(), old(state).pos() as int) {
            Ok(((dest, src), l)) => r == Ok::<(Location, Location), Error>((dest, src))
                && final(state).pending() == l,
            Err(e) => r == Err::<(Location, Location), Error>(e),
        },
{
    match state.get_byte(1) {
        Ok(_) => (),
        Err(e) => {
            return Err(e);
        },
    };
    state.add_len(2);
    let dest = match decode_rm(state) {
        Ok(loc) => loc,
        Err(e) => {
            return Err(e);
        },
    };
    let src = match decode_imm(state) {
        Ok(loc) => loc,
        Err(e) => {
            return Err(e);
        },
    };
    Ok((dest, src))
}

} // verus!
