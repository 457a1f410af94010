//! The closed set of decodable instructions and the one-instruction decoder.

use vstd::prelude::*;
use vstd::string::StringExecFns;

use crate::Error;
use crate::decoder::jump::{decode_jump, spec_decode_jump};
use crate::decoder::mov::{MoveInstr, decode_mov, spec_decode_mov};
use crate::decoder::op::{OpInstr, decode_op, spec_decode_op};
use crate::decoder::state::Decoder;

verus! {

/// One decoded instruction: a data move, an arithmetic-or-compare operation,
/// or a conditional relative jump with its signed displacement.
#[derive(Clone, Copy, Debug, PartialEq, Eq, Structural)]
pub enum Instr {
    Mov(MoveInstr),
    Op(OpInstr),
    Je(i8),
    Jne(i8),
}

impl Instr {
    /// The assembly line for this instruction; a jump renders its signed
    /// displacement in decimal.
    pub open spec fn spec_text(&self) -> Seq<char> {
        match *self {
            Instr::Mov(mov) => mov.spec_text(),
            Instr::Op(op) => op.spec_text(),
            Instr::Je(offset) => "je "@ + crate::text::spec_dec_signed(offset as int),
            Instr::Jne(offset) => "jne "@ + crate::text::spec_dec_signed(offset as int),
        }
    }

    /// Renders this instruction as one line of assembly text.
    pub fn text(&self) -> (r: String)
        ensures
            r@ == self.spec_text(),
    {
        match *self {
            Instr::Mov(mov) => mov.text(),
            Instr::Op(op) => op.text(),
            Instr::Je(offset) => {
                proof {
                    reveal_strlit("je ");
                }
                let mut s = "je ".to_owned();
                let digits = crate::text::dec_i16(offset as i16);
                s.append(digits.as_str());
                proof {
                    assert(s@ =~= self.spec_text());
                }
                s
            },
            Instr::Jne(offset) => {
                proof {
                    reveal_strlit("jne ");
                }
                let mut s = "jne ".to_owned();
                let digits = crate::text::dec_i16(offset as i16);
                s.append(digits.as_str());
                proof {
                    assert(s@ =~= self.spec_text());
                }
                s
            },
        }
    }
}

/// What decoding one instruction at `pos` yields: the instruction and its
/// encoded length, an `UnknownOpcode` fault carrying the offending byte when
/// no family matches, or an `OutOfBounds` fault when the encoding runs past
/// the end of the buffer.
///
/// The families are tried in a fixed priority order: the five move families,
/// the three arithmetic families, then the two jumps.
pub open spec fn spec_decode(buf: Seq<u8>, pos: int) -> Result<(Instr, int), Error> {
    if pos < 0 || pos >= buf.len() {
        Err(Error::OutOfBounds)
    } else {
        match spec_decode_mov(buf, pos) {
            Some(r) => r,
            None => match spec_decode_op(buf, pos) {
                Some(r) => r,
                None => match spec_decode_jump(buf, pos) {
                    Some(r) => r,
                    None => Err(Error::UnknownOpcode(buf[pos])),
                },
            },
        }
    }
}

/// A successful decode consumes between one and six bytes, all of which lie
/// inside the buffer.
pub proof fn lemma_spec_decode_len(buf: Seq<u8>, pos: int)
    ensures
        match spec_decode(buf, pos) {
            Ok((i, l)) => 1 <= l <= 6 && pos + l <= buf.len() && 0 <= pos,
            Err(_) => true,
        },
{
}

/// The decode length invariant: a successful decode is a function of exactly
/// the bytes it consumes — no over-read and no under-read. Any buffer that
/// holds the same `l` bytes at some position decodes to the same instruction
/// with the same length there.
pub proof fn lemma_decode_frame(buf1: Seq<u8>, pos1: int, buf2: Seq<u8>, pos2: int)
    requires
        spec_decode(buf1, pos1) is Ok,
        0 <= pos2,
        pos2 + spec_decode(buf1, pos1)->Ok_0.1 <= buf2.len(),
        forall|k: int|
            0 <= k < spec_decode(buf1, pos1)->Ok_0.1 ==> #[trigger] buf1[pos1 + k] == buf2[pos2
                + k],
    ensures
        spec_decode(buf2, pos2) == spec_decode(buf1, pos1),
{
    lemma_spec_decode_len(buf1, pos1);
    let l = spec_decode(buf1, pos1)->Ok_0.1;
    assert(buf1[pos1 + 0] == buf2[pos2 + 0]);
    assert(buf1[pos1] == buf2[pos2]);
    if l > 1 {
        assert(buf1[pos1 + 1] == buf2[pos2 + 1]);
    }
    if l > 2 {
        assert(buf1[pos1 + 2] == buf2[pos2 + 2]);
    }
    if l > 3 {
        assert(buf1[pos1 + 3] == buf2[pos2 + 3]);
    }
    if l > 4 {
        assert(buf1[pos1 + 4] == buf2[pos2 + 4]);
    }
    if l > 5 {
        assert(buf1[pos1 + 5] == buf2[pos2 + 5]);
    }
}

/// Decodes the one instruction at the cursor's position, leaving its encoded
/// length pending on the cursor.
pub fn decode_instr<T: Decoder>(state: &mut T) -> (r: Result<Instr, Error>)
    requires
        old(state).wf(),
        old(state).pending() == 0,
    ensures
        final(state).wf(),
        final(state).buf() == old(state).buf(),
        final(state).limit() == old(state).limit(),
        final(state).pos() == old(state).pos(),
        final(state).reset() == old(state).reset(),
        match spec_decode(old(state).buf(), old(state).pos() as int) {
            Ok((i, l)) => r == Ok::<Instr, Error>(i) && final(state).pending() == l,
            Err(e) => r == Err::<Instr, Error>(e),
        },
{
    let byte = match state.get_byte(0) {
        Ok(b) => b,
        Err(e) => {
            return Err(e);
        },
    };
    if let Some(r) = decode_mov(state) {
        return r;
    }
    if let Some(r) = decode_op(state) {
        return r;
    }
    if let Some(r) = decode_jump(state) {
        return r;
    }
    Err(Error::UnknownOpcode(byte))
}

} // verus!
