//! The eight fixed base-register combinations an effective address can use.

use vstd::prelude::*;

verus! {

/// One of the eight base-register combinations of the architecture: a
/// two-register sum, a single index register, or a single base register.
/// Carries no data itself; the registers are summed at execution time.
#[derive(Clone, Copy, Debug, PartialEq, Eq, Structural)]
pub enum EffectiveAddressMode {
    BxSi,
    BxDi,
    BpSi,
    BpDi,
    Si,
    Di,
    Bp,
    Bx,
}

impl EffectiveAddressMode {
    /// The assembly spelling of this base combination.
    pub open spec fn spec_text(&self) -> Seq<char> {
        match *self {
            EffectiveAddressMode::BxSi => "bx + si"@,
            EffectiveAddressMode::BxDi => "bx + di"@,
            EffectiveAddressMode::BpSi => "bp + si"@,
            EffectiveAddressMode::BpDi => "bp + di"@,
            EffectiveAddressMode::Si => "si"@,
            EffectiveAddressMode::Di => "di"@,
            EffectiveAddressMode::Bp => "bp"@,
            EffectiveAddressMode::Bx => "bx"@,
        }
    }

    /// Renders this base combination as assembly text.
    pub fn text(&self) -> (r: String)
        ensures
            r@ == self.spec_text(),
    {
        match *self {
            EffectiveAddressMode::BxSi => "bx + si".to_owned(),
            EffectiveAddressMode::BxDi => "bx + di".to_owned(),
            EffectiveAddressMode::BpSi => "bp + si".to_owned(),
            EffectiveAddressMode::BpDi => "bp + di".to_owned(),
            EffectiveAddressMode::Si => "si".to_owned(),
            EffectiveAddressMode::Di => "di".to_owned(),
            EffectiveAddressMode::Bp => "bp".to_owned(),
            EffectiveAddressMode::Bx => "bx".to_owned(),
        }
    }
}

/// The fixed table from a three-bit register-or-memory field to its
/// effective-address mode.
pub open spec fn spec_eac_mode(bits: u8) -> EffectiveAddressMode {
    if bits == 0 {
        EffectiveAddressMode::BxSi
    } else if bits == 1 {
        EffectiveAddressMode::BxDi
    } else if bits == 2 {
        EffectiveAddressMode::BpSi
    } else if bits == 3 {
        EffectiveAddressMode::BpDi
    } else if bits == 4 {
        EffectiveAddressMode::Si
    } else if bits == 5 {
        EffectiveAddressMode::Di
    } else if bits == 6 {
        EffectiveAddressMode::Bp
    } else {
        EffectiveAddressMode::Bx
    }
}

/// Decodes a three-bit register-or-memory field into its effective-address
/// mode.
pub fn decode_eac_mode(byte: u8) -> (r: EffectiveAddressMode)
    requires
        byte < 8,
    ensures
        r == spec_eac_mode(byte),
{
    if byte == 0 {
        EffectiveAddressMode::BxSi
    } else if byte == 1 {
        EffectiveAddressMode::BxDi
    } else if byte == 2 {
        EffectiveAddressMode::BpSi
    } else if byte == 3 {
        EffectiveAddressMode::BpDi
    } else if byte == 4 {
        EffectiveAddressMode::Si
    } else if byte == 5 {
        EffectiveAddressMode::Di
    } else if byte == 6 {
        EffectiveAddressMode::Bp
    } else {
        EffectiveAddressMode::Bx
    }
}

} // verus!
