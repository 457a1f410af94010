//! The short accumulator transfer family: memory to accumulator and
//! accumulator to memory.

use vstd::prelude::*;

use crate::Error;
use crate::decoder::eac::spec_le16;
use crate::decoder::loc::{Location, Reg};
use crate::decoder::mov::MoveInstr;
use crate::decoder::state::Decoder;

verus! {

/// What decoding a memory-to-accumulator move at `pos` yields: the
/// accumulator register sized by the width bit, a direct address of one or
/// two bytes, and the total encoded length.
pub open spec fn spec_decode_mem_to_acc(buf: Seq<u8>, pos: int) -> Result<(MoveInstr, int), Error>
    recommends
        0 <= pos < buf.len(),
{
    let w = buf[pos] & 0b1;
    if w == 0 {
        if pos + 2 <= buf.len() {
            Ok(
                (
                    MoveInstr {
                        dest: Location::Reg(Reg::Al),
                        src: Location::Mem(buf[pos + 1] as u16),
                    },
                    2,
                ),
            )
        } else {
            Err(Error::OutOfBounds)
        }
    } else {
        if pos + 3 <= buf.len() {
            Ok(
                (
                    MoveInstr {
                        dest: Location::Reg(Reg::Ax),
                        src: Location::Mem(spec_le16(buf[pos + 1], buf[pos + 2])),
                    },
                    3,
                ),
            )
        } else {
            Err(Error::OutOfBounds)
        }
    }
}

/// Decodes a memory-to-accumulator move: the width bit picks the byte or
/// word accumulator and how many address bytes follow.
pub fn decode_mem_to_acc<T: Decoder>(state: &mut T) -> (r: Result<MoveInstr, Error>)
    requires
        old(state).wf(),
        old(state).pending() == 0,
        old(state).pos() < old(state).buf().len(),
    ensures
        final(state).wf(),
        final(state).buf() == old(state).buf(),
        final(state).limit() == old(state).limit(),
        final(state).pos() == old(state).pos(),
        final(state).reset() == old(state).reset(),
        match spec_decode_mem_to_acc(old(state).buf(), old(state).pos() as int) {
            Ok((mv, l)) => r == Ok::<MoveInstr, Error>(mv) && final(state).pending() == l,
            Err(e) => r == Err::<MoveInstr, Error>(e),
        },
{
    let first = match state.get_byte(0) {
        Ok(b) => b,
        Err(e) => {
            return Err(e);
        },
    };
    state.add_len(1);
    let w: u8 = first & 0b1;
    if w == 0 {
        let low = match state.get_byte(1) {
            Ok(b) => b,
            Err(e) => {
                return Err(e);
            },
        };
        state.add_len(1);
        Ok(MoveInstr { dest: Location::Reg(Reg::Al), src: Location::Mem(low as u16) })
    } else {
        let low = match state.get_byte(1) {
            Ok(b) => b,
            Err(e) => {
                return Err(e);
            },
        };
        let high = match state.get_byte(2) {
            Ok(b) => b,
            Err(e) => {
                return Err(e);
            },
        };
        state.add_len(2);
        Ok(
            MoveInstr {
                dest: Location::Reg(Reg::Ax),
                src: Location::Mem((high as u16) << 8 | (low as u16)),
            },
        )
    }
}

/// What decoding an accumulator-to-memory move at `pos` yields: the mirror
/// image of the memory-to-accumulator form.
pub open spec fn spec_decode_acc_to_mem(buf: Seq<u8>, pos: int) -> Result<(MoveInstr, int), Error>
    recommends
        0 <= pos < buf.len(),
{
    let w = buf[pos] & 0b1;
    if w == 0 {
        if pos + 2 <= buf.len() {
            Ok(
                (
                    MoveInstr {
                        dest: Location::Mem(buf[pos + 1] as u16),
                        src: Location::Reg(Reg::Al),
                    },
                    2,
                ),
            )
        } else {
            Err(Error::OutOfBounds)
        }
    } else {
        if pos + 3 <= buf.len() {
            Ok(
                (
                    MoveInstr {
                        dest: Location::Mem(spec_le16(buf[pos + 1], buf[pos + 2])),
                        src: Location::Reg(Reg::Ax),
                    },
                    3,
                ),
            )
        } else {
            Err(Error::OutOfBounds)
        }
    }
}

/// Decodes an accumulator-to-memory move: the width bit picks the byte or
/// word accumulator and how many address bytes follow.
pub fn decode_acc_to_mem<T: Decoder>(state: &mut T) -> (r: Result<MoveInstr, Error>)
    requires
        old(state).wf(),
        old(state).pending() == 0,
        old(state).pos() < old(state).buf().len(),
    ensures
        final(state).wf(),
        final(state).buf() == old(state).buf(),
        final(state).limit() == old(state).limit(),
        final(state).pos() == old(state).pos(),
        final(state).reset() == old(state).reset(),
        match spec_decode_acc_to_mem(old(state).buf(), old(state).pos() as int) {
            Ok((mv, l)) => r == Ok::<MoveInstr, Error>(mv) && final(state).pending() == l,
            Err(e) => r == Err::<MoveInstr, Error>(e),
        },
{
    let first = match state.get_byte(0) {
        Ok(b) => b,
        Err(e) => {
            return Err(e);
        },
    };
    state.add_len(1);
    let w: u8 = first & 0b1;
    if w == 0 {
        let low = match state.get_byte(1) {
            Ok(b) => b,
            Err(e) => {
                return Err(e);
            },
        };
        state.add_len(1);
        Ok(MoveInstr { dest: Location::Mem(low as u16), src: Location::Reg(Reg::Al) })
    } else {
        let low = match state.get_byte(1) {
            Ok(b) => b,
            Err(e) => {
                return Err(e);
            },
        };
        let high = match state.get_byte(2) {
            Ok(b) => b,
            Err(e) => {
                return Err(e);
            },
        };
        state.add_len(2);
        Ok(
            MoveInstr {
                dest: Location::Mem((high as u16) << 8 | (low as u16)),
                src: Location::Reg(Reg::Ax),
            },
        )
    }
}

} // verus!
