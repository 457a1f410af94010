//! The two conditional relative jumps: jump-if-equal and jump-if-not-equal.

use vstd::prelude::*;

use crate::Error;
use crate::decoder::instr::Instr;
use crate::decoder::state::Decoder;

verus! {

/// What decoding a conditional jump at `pos` yields: the jump with its
/// signed 8-bit displacement and a two-byte length, or `None` when the
/// leading byte is neither jump opcode.
pub open spec fn spec_decode_jump(buf: Seq<u8>, pos: int) -> Option<Result<(Instr, int), Error>>
    recommends
        0 <= pos < buf.len(),
{
    let byte = buf[pos];
    if byte == 0b01110100 {
        Some(
            if pos + 2 <= buf.len() {
                Ok((Instr::Je(buf[pos + 1] as i8), 2))
            } else {
                Err(Error::OutOfBounds)
            },
        )
    } else if byte == 0b01110101 {
        Some(
            if pos + 2 <= buf.len() {
                Ok((Instr::Jne(buf[pos + 1] as i8), 2))
            } else {
                Err(Error::OutOfBounds)
            },
        )
    } else {
        None
    }
}

/// Decodes a conditional jump: a one-byte opcode followed by one signed
/// displacement byte; reports `None` when the leading byte is neither jump.
pub fn decode_jump<T: Decoder>(state: &mut T) -> (r: Option<Result<Instr, Error>>)
    requires
        old(state).wf(),
        old(state).pending() == 0,
        old(state).pos() < old(state).buf().len(),
    ensures
        final(state).wf(),
        final(state).buf() == old(state).buf(),
        final(state).limit() == old(state).limit(),
        final(state).pos() == old(state).pos(),
        final(state).reset() == old(state).reset(),
        match spec_decode_jump(old(state).buf(), old(state).pos() as int) {
            Some(Ok((i, l))) => r == Some(Ok::<Instr, Error>(i)) && final(state).pending() == l,
            Some(Err(e)) => r == Some(Err::<Instr, Error>(e)),
            None => r == None::<Result<Instr, Error>> && final(state).pending() == 0,
        },
{
    let byte = match state.get_byte(0) {
        Ok(b) => b,
        Err(e) => {
            return Some(Err(e));
        },
    };
    if byte == 0b01110100 {
        let to = match state.get_byte(1) {
            Ok(b) => b,
            Err(e) => {
                return Some(Err(e));
            },
        };
        state.add_len(2);
        Some(Ok(Instr::Je(to as i8)))
    } else if byte == 0b01110101 {
        let to = match state.get_byte(1) {
            Ok(b) => b,
            Err(e) => {
                return Some(Err(e));
            },
        };
        state.add_len(2);
        Some(Ok(Instr::Jne(to as i8)))
    } else {
        None
    }
}

} // verus!
