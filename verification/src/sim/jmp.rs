//! The conditional relative jumps against the machine: the displacement is
//! added to the already-advanced instruction pointer, wrapping modulo 2^16.

use vstd::prelude::*;

use crate::Error;
use crate::sim::{Machine, SimState, spec_has_more, spec_step};

verus! {

/// The machine after a jump-if-equal with the given displacement: the
/// instruction pointer moves by the signed displacement exactly when the
/// zero flag is set.
pub open spec fn spec_exec_je(m: Machine, offset: i8) -> Machine {
    if m.zero {
        Machine { ip: vstd::wrapping::u16_specs::wrapping_add_signed(m.ip, offset as i16), ..m }
    } else {
        m
    }
}

/// The machine after a jump-if-not-equal: the mirror image, gated on the
/// zero flag being clear.
pub open spec fn spec_exec_jne(m: Machine, offset: i8) -> Machine {
    if !m.zero {
        Machine { ip: vstd::wrapping::u16_specs::wrapping_add_signed(m.ip, offset as i16), ..m }
    } else {
        m
    }
}

impl SimState {
    /// Moves the instruction pointer by the signed displacement when the
    /// zero flag is set; nothing else changes.
    pub fn execute_je(&mut self, offset: i8)
        ensures
            final(self)@ == spec_exec_je(old(self)@, offset),
            final(self).instr_len == old(self).instr_len,
    {
        if self.flags.zero {
            self.ip = self.ip.wrapping_add_signed(offset as i16);
        }
    }

    /// Moves the instruction pointer by the signed displacement when the
    /// zero flag is clear; nothing else changes.
    pub fn execute_jne(&mut self, offset: i8)
        ensures
            final(self)@ == spec_exec_jne(old(self)@, offset),
            final(self).instr_len == old(self).instr_len,
    {
        if !self.flags.zero {
            self.ip = self.ip.wrapping_add_signed(offset as i16);
        }
    }
}

/// Relative jump arithmetic, through one whole fetch-decode-execute step:
/// when the byte at the instruction pointer is one of the two conditional
/// jumps, the pointer first moves past the two encoded bytes, and then by
/// the signed displacement exactly when the jump's flag condition holds.
pub proof fn lemma_jump_step(m: Machine)
    requires
        m.wf(),
        spec_has_more(m),
        m.mem[m.ip as int] == 0x74 || m.mem[m.ip as int] == 0x75,
        m.ip + 2 <= m.mem.len(),
    ensures
        ({
            let disp = m.mem[m.ip as int + 1] as i8;
            let after = ((m.ip + 2) % 0x10000) as u16;
            let taken = if m.mem[m.ip as int] == 0x74 {
                m.zero
            } else {
                !m.zero
            };
            spec_step(m) == Ok::<Machine, Error>(
                Machine {
                    ip: if taken {
                        vstd::wrapping::u16_specs::wrapping_add_signed(after, disp as i16)
                    } else {
                        after
                    },
                    ..m
                },
            )
        }),
{
    let b = m.mem[m.ip as int];
    assert((b == 0x74 || b == 0x75) ==> b & 0b11111100 != 0b10001000 && b & 0b11110000
        != 0b10110000 && b & 0b11111110 != 0b11000110 && b & 0b11111110 != 0b10100000 && b
        & 0b11111110 != 0b10100010 && b & 0b11000100 != 0b00000000 && b & 0b11000100 != 0b10000000
        && b & 0b11000110 != 0b00000100) by (bit_vector);
}

} // verus!
