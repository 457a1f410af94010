//! The instruction decoder: byte stream in, structured [`instr::Instr`] out.
//!
//! Every decode routine is written against the [`state::Decoder`] cursor
//! capability, so the same code serves the static-buffer disassembler and the
//! live simulator.

pub mod acc;
pub mod eac;
pub mod eac_mode;
pub mod imm_to_reg;
pub mod imm_to_rm;
pub mod instr;
pub mod jump;
pub mod loc;
pub mod mov;
pub mod op;
pub mod rm_to_reg;
pub mod state;

use vstd::prelude::*;

use crate::Error;
use crate::decoder::instr::{Instr, decode_instr, lemma_spec_decode_len, spec_decode};
use crate::decoder::state::{Decoder, DecoderState};

verus! {

/// What decoding a whole buffer from `pos` to its end yields: the
/// instructions in order, or the first fault met.
pub open spec fn spec_decode_from(buf: Seq<u8>, pos: int) -> Result<Seq<Instr>, Error>
    decreases buf.len() - pos,
        when 0 <= pos via spec_decode_from_dec
{
    if pos >= buf.len() {
        Ok(Seq::empty())
    } else {
        match spec_decode(buf, pos) {
            Ok((i, l)) => match spec_decode_from(buf, pos + l) {
                Ok(rest) => Ok(seq![i] + rest),
                Err(e) => Err(e),
            },
            Err(e) => Err(e),
        }
    }
}

#[via_fn]
proof fn spec_decode_from_dec(buf: Seq<u8>, pos: int) {
    lemma_spec_decode_len(buf, pos);
}

/// Disassembly is idempotent: the listing is a function of the bytes alone,
/// so decoding equal buffers — the same buffer twice included — yields
/// identical listings.
pub proof fn lemma_decode_deterministic(bytes1: Seq<u8>, bytes2: Seq<u8>)
    requires
        bytes1 == bytes2,
    ensures
        spec_decode_from(bytes1, 0) == spec_decode_from(bytes2, 0),
{
}

/// Decodes a whole program image into its instruction listing, or reports
/// the first fault met; the result is a function of the bytes alone.
#[verifier::loop_isolation(false)]
pub fn decode(bytes: Vec<u8>) -> (r: Result<Vec<Instr>, Error>)
    ensures
        match r {
            Ok(instrs) => spec_decode_from(bytes@, 0) == Ok::<Seq<Instr>, Error>(instrs@),
            Err(e) => spec_decode_from(bytes@, 0) == Err::<Seq<Instr>, Error>(e),
        },
{
    let ghost buf: Seq<u8> = bytes@;
    let mut found: Vec<Instr> = Vec::new();
    let mut state = DecoderState::new(bytes);
    let mut more: bool = state.next();
    proof {
        if let Ok(rest) = spec_decode_from(buf, 0) {
            assert(found@ + rest =~= rest);
        }
    }
    while more
        invariant
            state.wf(),
            state.buf() == buf,
            state.limit() == buf.len(),
            state.pending() == 0,
            more == (state.pos() < buf.len()),
            match spec_decode_from(buf, state.pos() as int) {
                Ok(rest) => spec_decode_from(buf, 0) == Ok::<Seq<Instr>, Error>(found@ + rest),
                Err(e) => spec_decode_from(buf, 0) == Err::<Seq<Instr>, Error>(e),
            },
        decreases buf.len() - state.pos(),
    {
        let ghost pos0: int = state.pos() as int;
        let ghost found0: Seq<Instr> = found@;
        let instr = match decode_instr(&mut state) {
            Ok(i) => i,
            Err(e) => {
                return Err(e);
            },
        };
        found.push(instr);
        proof {
            lemma_spec_decode_len(buf, pos0);
        }
        more = state.next();
        proof {
            if let Ok((i, l)) = spec_decode(buf, pos0) {
                assert(found@ =~= found0 + seq![i]);
                if let Ok(rest) = spec_decode_from(buf, pos0 + l) {
                    assert(spec_decode_from(buf, pos0) == Ok::<Seq<Instr>, Error>(
                        seq![i] + rest,
                    ));
                    assert(found0 + (seq![i] + rest) =~= found@ + rest);
                }
            }
        }
    }
    proof {
        assert(found@ + Seq::<Instr>::empty() =~= found@);
    }
    Ok(found)
}

} // verus!
