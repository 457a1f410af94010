//! Effective addresses: a base-register combination plus an optional signed
//! displacement, and the decoder for the displacement bytes.

use vstd::prelude::*;

use crate::Error;
use crate::decoder::eac_mode::{EffectiveAddressMode, decode_eac_mode, spec_eac_mode};
use crate::decoder::state::Decoder;
use vstd::string::StringExecFns;

verus! {

/// An effective address: one of the eight fixed base combinations, with no
/// displacement, a signed 8-bit displacement, or a signed 16-bit displacement.
#[derive(Clone, Copy, Debug, PartialEq, Eq, Structural)]
pub enum EffectiveAddress {
    Mode(EffectiveAddressMode),
    Byte(EffectiveAddressMode, i8),
    Word(EffectiveAddressMode, i16),
}

impl EffectiveAddress {
    /// The base-register combination of this effective address.
    pub open spec fn spec_mode(&self) -> EffectiveAddressMode {
        match *self {
            EffectiveAddress::Mode(mode) => mode,
            EffectiveAddress::Byte(mode, _) => mode,
            EffectiveAddress::Word(mode, _) => mode,
        }
    }

    /// The signed displacement, widened to 16 bits; zero when absent.
    pub open spec fn spec_offset(&self) -> i16 {
        match *self {
            EffectiveAddress::Mode(_) => 0,
            EffectiveAddress::Byte(_, offset) => offset as i16,
            EffectiveAddress::Word(_, offset) => offset,
        }
    }

    pub fn mode(&self) -> (r: EffectiveAddressMode)
        ensures
            r == self.spec_mode(),
    {
        match *self {
            EffectiveAddress::Mode(mode) => mode,
            EffectiveAddress::Byte(mode, _) => mode,
            EffectiveAddress::Word(mode, _) => mode,
        }
    }

    pub fn offset(&self) -> (r: i16)
        ensures
            r == self.spec_offset(),
    {
        match *self {
            EffectiveAddress::Mode(_) => 0,
            EffectiveAddress::Byte(_, offset) => offset as i16,
            EffectiveAddress::Word(_, offset) => offset,
        }
    }
}

impl EffectiveAddress {
    /// The assembly spelling of a base combination with a displacement:
    /// `mode + N`, or `mode - N` when the displacement is negative.
    pub open spec fn spec_text_with_offset(mode: EffectiveAddressMode, offset: int) -> Seq<char> {
        if offset < 0 {
            mode.spec_text() + " - "@ + crate::text::spec_dec((-offset) as nat)
        } else {
            mode.spec_text() + " + "@ + crate::text::spec_dec(offset as nat)
        }
    }

    /// The assembly spelling of this effective address, without the
    /// enclosing brackets: the base combination, and the signed displacement
    /// when one was encoded.
    pub open spec fn spec_text(&self) -> Seq<char> {
        match *self {
            EffectiveAddress::Mode(mode) => mode.spec_text(),
            EffectiveAddress::Byte(mode, offset) => Self::spec_text_with_offset(
                mode,
                offset as int,
            ),
            EffectiveAddress::Word(mode, offset) => Self::spec_text_with_offset(
                mode,
                offset as int,
            ),
        }
    }

    fn text_with_offset(mode: EffectiveAddressMode, offset: i16) -> (r: String)
        ensures
            r@ == Self::spec_text_with_offset(mode, offset as int),
    {
        let mut s = mode.text();
        if offset < 0 {
            proof {
                reveal_strlit(" - ");
            }
            s.append(" - ");
            let magnitude: u16 = #[verifier::truncate] ((-(offset as i32)) as u16);
            let digits = crate::text::dec_u16(magnitude);
            s.append(digits.as_str());
        } else {
            proof {
                reveal_strlit(" + ");
            }
            s.append(" + ");
            let digits = crate::text::dec_u16(#[verifier::truncate] (offset as u16));
            s.append(digits.as_str());
        }
        proof {
            assert(s@ =~= Self::spec_text_with_offset(mode, offset as int));
        }
        s
    }

    /// Renders this effective address as assembly text, without the
    /// enclosing brackets.
    pub fn text(&self) -> (r: String)
        ensures
            r@ == self.spec_text(),
    {
        match *self {
            EffectiveAddress::Mode(mode) => mode.text(),
            EffectiveAddress::Byte(mode, offset) => Self::text_with_offset(mode, offset as i16),
            EffectiveAddress::Word(mode, offset) => Self::text_with_offset(mode, offset),
        }
    }
}

/// A little-endian 16-bit value from two bytes, low byte first.
pub open spec fn spec_le16(low: u8, high: u8) -> u16 {
    (high as u16) << 8 | (low as u16)
}

/// What decoding the displacement of a non-register, non-direct mod/reg/rm
/// byte at `pos + 1` yields: the effective address and the count of
/// displacement bytes it appends (0, 1 or 2).
///
/// Meaningful when byte `pos + 1` exists and its mode field is `00` (other
/// than the direct-address special case), `01` or `10`.
pub open spec fn spec_decode_eac(buf: Seq<u8>, pos: int) -> Result<(EffectiveAddress, int), Error>
    recommends
        0 <= pos,
        pos + 1 < buf.len(),
{
    let second = buf[pos + 1];
    let mode = spec_eac_mode(second & 0b111);
    let md = second >> 6;
    if md == 0b00 {
        Ok((EffectiveAddress::Mode(mode), 0))
    } else if md == 0b01 {
        if pos + 3 <= buf.len() {
            Ok((EffectiveAddress::Byte(mode, buf[pos + 2] as i8), 1))
        } else {
            Err(Error::OutOfBounds)
        }
    } else {
        if pos + 4 <= buf.len() {
            Ok((EffectiveAddress::Word(mode, spec_le16(buf[pos + 2], buf[pos + 3]) as i16), 2))
        } else {
            Err(Error::OutOfBounds)
        }
    }
}

/// Decodes the effective-address part of a mod/reg/rm byte: picks the base
/// combination from the register-or-memory field and appends the
/// displacement bytes that the mode field calls for.
///
/// Expects the opcode and mod/reg/rm bytes (two bytes) already counted, and a
/// mode field other than `11`.
pub fn decode_eac<T: Decoder>(state: &mut T) -> (r: Result<EffectiveAddress, Error>)
    requires
        old(state).wf(),
        old(state).pending() == 2,
        old(state).pos() + 1 < old(state).buf().len(),
        (old(state).buf()[old(state).pos() as int + 1] >> 6) != 0b11,
    ensures
        final(state).wf(),
        final(state).buf() == old(state).buf(),
        final(state).limit() == old(state).limit(),
        final(state).pos() == old(state).pos(),
        final(state).reset() == old(state).reset(),
        match spec_decode_eac(old(state).buf(), old(state).pos() as int) {
            Ok((eac, extra)) => r == Ok::<EffectiveAddress, Error>(eac) && final(state).pending()
                == 2 + extra,
            Err(e) => r == Err::<EffectiveAddress, Error>(e),
        },
{
    let first = match state.get_byte(1) {
        Ok(b) => b,
        Err(e) => {
            return Err(e);
        },
    };
    proof {
        lemma_small_fields(first);
    }
    let mode = decode_eac_mode(first & 0b111);
    let md: u8 = first >> 6;
    if md == 0b00 {
        Ok(EffectiveAddress::Mode(mode))
    } else if md == 0b01 {
        let offset = match state.get_byte(state.get_instr_len()) {
            Ok(b) => b as i8,
            Err(e) => {
                return Err(e);
            },
        };
        state.add_len(1);
        Ok(EffectiveAddress::Byte(mode, offset))
    } else {
        let instr_len = state.get_instr_len();
        let low = match state.get_byte(instr_len) {
            Ok(b) => b,
            Err(e) => {
                return Err(e);
            },
        };
        let high = match state.get_byte(instr_len + 1) {
            Ok(b) => b,
            Err(e) => {
                return Err(e);
            },
        };
        state.add_len(2);
        let offset = ((high as u16) << 8 | (low as u16)) as i16;
        Ok(EffectiveAddress::Word(mode, offset))
    }
}

/// The two-, three- and six-bit fields sliced out of an opcode or mod/reg/rm
/// byte stay inside their width.
pub proof fn lemma_small_fields(b: u8)
    by (bit_vector)
    ensures
        b & 0b1 < 2,
        b & 0b11 < 4,
        b & 0b111 < 8,
        (b >> 3) & 0b1 < 2,
        (b >> 3) & 0b111 < 8,
        b >> 6 < 4,
        (b & 0b11000000) >> 6 == b >> 6,
        (b & 0b111000) >> 3 == (b >> 3) & 0b111,
        (b & 0b00111000) >> 3 == (b >> 3) & 0b111,
        (b & 0b00001000) >> 3 == (b >> 3) & 0b1,
{
}

} // verus!
