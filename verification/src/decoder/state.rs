//! The decode cursor capability: a byte source with a committed position and
//! a pending instruction length. The same decoding routines run over a static
//! buffer (disassembly) and over the simulated memory (execution), because
//! both hosts expose exactly this contract.

use vstd::prelude::*;

use crate::Error;

verus! {

/// A decode host: relative byte reads from a committed position, plus an
/// accumulated pending length for the instruction under construction.
///
/// `buf` is the whole byte store, `pos` the committed position, `pending` the
/// bytes consumed so far by the current instruction, and `limit` the end of
/// the loaded program (`limit <= buf.len()`, see [`Decoder::lemma_wf`]).
pub trait Decoder: Sized {
    /// The byte store the cursor reads from.
    spec fn buf(&self) -> Seq<u8>;

    /// The committed read position.
    spec fn pos(&self) -> nat;

    /// Bytes consumed so far by the instruction under construction.
    spec fn pending(&self) -> nat;

    /// End of the loaded program; decoding stops once `pos` reaches it.
    spec fn limit(&self) -> nat;

    /// The host's well-formedness condition.
    spec fn wf(&self) -> bool;

    /// The host with its cursor cleared: position and pending length reset
    /// to zero, everything else as it stands. The cursor methods move only
    /// the cursor, so they all preserve this projection.
    spec fn reset(&self) -> Self;

    /// A well-formed host never places the program end past its byte store.
    proof fn lemma_wf(&self)
        requires
            self.wf(),
        ensures
            self.limit() <= self.buf().len(),
    ;

    /// Whether the committed position is still inside the loaded program.
    fn has_more(&self) -> (r: bool)
        requires
            self.wf(),
        ensures
            r == (self.pos() < self.limit()),
    ;

    /// The byte at `pos + offset`, or `OutOfBounds` past the end of the store.
    fn get_byte(&self, offset: usize) -> (r: Result<u8, Error>)
        requires
            self.wf(),
        ensures
            match r {
                Ok(b) => self.pos() + offset < self.buf().len() && b == self.buf()[self.pos()
                    + offset],
                Err(e) => e == Error::OutOfBounds && self.pos() + offset >= self.buf().len(),
            },
    ;

    /// Grows the pending instruction length without moving the position.
    fn add_len(&mut self, len: usize)
        requires
            old(self).wf(),
            old(self).pending() + len <= 0xFFFF,
        ensures
            final(self).wf(),
            final(self).reset() == old(self).reset(),
            final(self).buf() == old(self).buf(),
            final(self).limit() == old(self).limit(),
            final(self).pos() == old(self).pos(),
            final(self).pending() == old(self).pending() + len,
    ;

    /// Commits the pending length and reports whether bytes remain. How the
    /// committed position folds into the host's pointer is the host's
    /// affair: the buffer cursor advances exactly, the simulator's 16-bit
    /// instruction pointer wraps; each implementation pins it.
    fn next(&mut self) -> (r: bool)
        requires
            old(self).wf(),
            old(self).pos() + old(self).pending() <= old(self).buf().len(),
        ensures
            final(self).wf(),
            final(self).reset() == old(self).reset(),
            final(self).buf() == old(self).buf(),
            final(self).limit() == old(self).limit(),
            final(self).pending() == 0,
            r == (final(self).pos() < final(self).limit()),
    ;

    /// The pending instruction length.
    fn get_instr_len(&self) -> (r: usize)
        requires
            self.wf(),
        ensures
            r == self.pending(),
    ;

    /// Commits the pending length: moves the position forward and resets the
    /// pending length to zero. As with [`Decoder::next`], each
    /// implementation pins how the position folds into its pointer.
    fn advance(&mut self)
        requires
            old(self).wf(),
            old(self).pos() + old(self).pending() <= old(self).buf().len(),
        ensures
            final(self).wf(),
            final(self).reset() == old(self).reset(),
            final(self).buf() == old(self).buf(),
            final(self).limit() == old(self).limit(),
            final(self).pending() == 0,
    ;
}

/// The disassembler's host: a fixed byte buffer read from the front.
pub struct DecoderState {
    pub src: Vec<u8>,
    pub offset: usize,
    pub instr_len: usize,
}

impl DecoderState {
    /// A cursor at the start of `src` with no pending bytes.
    pub fn new(src: Vec<u8>) -> (r: Self)
        ensures
            r.wf(),
            r.buf() == src@,
            r.pos() == 0,
            r.pending() == 0,
            r.limit() == src@.len(),
    {
        Self { src, offset: 0, instr_len: 0 }
    }
}

impl Decoder for DecoderState {
    open spec fn buf(&self) -> Seq<u8> {
        self.src@
    }

    open spec fn pos(&self) -> nat {
        self.offset as nat
    }

    open spec fn pending(&self) -> nat {
        self.instr_len as nat
    }

    open spec fn limit(&self) -> nat {
        self.src@.len()
    }

    open spec fn wf(&self) -> bool {
        true
    }

    open spec fn reset(&self) -> Self {
        DecoderState { offset: 0, instr_len: 0, src: self.src }
    }

    proof fn lemma_wf(&self) {
    }

    fn has_more(&self) -> (r: bool) {
        self.offset < self.src.len()
    }

    fn get_byte(&self, offset: usize) -> (r: Result<u8, Error>) {
        if offset < self.src.len() && self.offset < self.src.len() - offset {
            Ok(self.src[self.offset + offset])
        } else {
            Err(Error::OutOfBounds)
        }
    }

    fn add_len(&mut self, len: usize) {
        self.instr_len = self.instr_len + len;
    }

    fn next(&mut self) -> (r: bool)
        ensures
            final(self).pos() == old(self).pos() + old(self).pending(),
    {
        let n: usize = self.src.len();
        self.offset = self.offset + self.instr_len;
        self.instr_len = 0;
        self.offset < n
    }

    fn get_instr_len(&self) -> (r: usize) {
        self.instr_len
    }

    fn advance(&mut self)
        ensures
            final(self).pos() == old(self).pos() + old(self).pending(),
    {
        let n: usize = self.src.len();
        self.offset = self.offset + self.instr_len;
        self.instr_len = 0;
        proof {
            assert(self.offset <= n);
        }
    }
}

} // verus!
