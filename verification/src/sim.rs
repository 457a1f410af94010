//! The simulated machine and its execution engine: eight 16-bit registers
//! (four of them addressable as 8-bit halves), an instruction pointer, two
//! flags, and a flat byte-addressable memory holding the program image.

pub mod flags;
pub mod jmp;
pub mod op_kind;

use vstd::prelude::*;
use vstd::string::StringExecFns;

use crate::Error;
use crate::decoder::eac::{EffectiveAddress, spec_le16};
use crate::decoder::eac_mode::EffectiveAddressMode;
use crate::decoder::instr::{Instr, decode_instr, lemma_spec_decode_len, spec_decode};
use crate::decoder::loc::{Location, Reg, Size};
use crate::decoder::mov::MoveInstr;
use crate::decoder::state::Decoder;
use crate::sim::flags::{Flags, spec_exec_op};
use crate::sim::jmp::{spec_exec_je, spec_exec_jne};

verus! {

/// The extent of the simulated memory in bytes: the full 64 KiB a 16-bit
/// address space reaches.
pub const MEM_SIZE: usize = 0x10000;

/// The mathematical model of the machine: register values, instruction
/// pointer, flags, memory contents, and the end of the loaded program.
pub ghost struct Machine {
    pub ax: u16,
    pub bx: u16,
    pub cx: u16,
    pub dx: u16,
    pub si: u16,
    pub di: u16,
    pub bp: u16,
    pub sp: u16,
    pub ip: u16,
    pub zero: bool,
    pub sign: bool,
    pub mem: Seq<u8>,
    pub prog_end: nat,
}

impl Machine {
    /// The machine's shape invariant: full-extent memory, and a program that
    /// fits inside it.
    pub open spec fn wf(&self) -> bool {
        self.mem.len() == MEM_SIZE && self.prog_end <= MEM_SIZE
    }
}

/// The simulated CPU state. The decode cursor of the live machine is the
/// instruction pointer itself, so the simulator hosts the same decoding
/// routines as the static-buffer disassembler.
pub struct SimState {
    pub ax: u16,
    pub bx: u16,
    pub cx: u16,
    pub dx: u16,
    pub si: u16,
    pub di: u16,
    pub bp: u16,
    pub sp: u16,
    pub ip: u16,
    pub flags: Flags,
    pub instr_len: u16,
    pub program_size: usize,
    pub memory: Vec<u8>,
}

impl View for SimState {
    type V = Machine;

    open spec fn view(&self) -> Machine {
        Machine {
            ax: self.ax,
            bx: self.bx,
            cx: self.cx,
            dx: self.dx,
            si: self.si,
            di: self.di,
            bp: self.bp,
            sp: self.sp,
            ip: self.ip,
            zero: self.flags.zero,
            sign: self.flags.sign,
            mem: self.memory@,
            prog_end: self.program_size as nat,
        }
    }
}

impl Decoder for SimState {
    open spec fn buf(&self) -> Seq<u8> {
        self.memory@
    }

    open spec fn pos(&self) -> nat {
        self.ip as nat
    }

    open spec fn pending(&self) -> nat {
        self.instr_len as nat
    }

    open spec fn limit(&self) -> nat {
        self.program_size as nat
    }

    open spec fn wf(&self) -> bool {
        self@.wf()
    }

    open spec fn reset(&self) -> Self {
        SimState { ip: 0, instr_len: 0, ..*self }
    }

    proof fn lemma_wf(&self) {
    }

    fn has_more(&self) -> (r: bool) {
        (self.ip as usize) < self.program_size
    }

    fn get_byte(&self, offset: usize) -> (r: Result<u8, Error>) {
        if offset < self.memory.len() {
            let p: usize = self.ip as usize;
            if p < self.memory.len() - offset {
                Ok(self.memory[p + offset])
            } else {
                Err(Error::OutOfBounds)
            }
        } else {
            Err(Error::OutOfBounds)
        }
    }

    fn add_len(&mut self, len: usize) {
        self.instr_len = self.instr_len + (len as u16);
    }

    fn next(&mut self) -> (r: bool)
        ensures
            final(self).pos() == (old(self).pos() + old(self).pending()) % 0x10000,
    {
        self.ip = self.ip.wrapping_add(self.instr_len);
        self.instr_len = 0;
        (self.ip as usize) < self.program_size
    }

    fn get_instr_len(&self) -> (r: usize) {
        self.instr_len as usize
    }

    fn advance(&mut self)
        ensures
            final(self).pos() == (old(self).pos() + old(self).pending()) % 0x10000,
    {
        self.ip = self.ip.wrapping_add(self.instr_len);
        self.instr_len = 0;
    }
}

impl SimState {
    /// A machine loaded with the given program image: the image fills the low
    /// addresses, the rest of memory is zero, and every register and flag
    /// starts cleared.
    pub fn new(src: Vec<u8>) -> (r: Self)
        requires
            src@.len() <= MEM_SIZE,
        ensures
            r@.wf(),
            r@.ax == 0 && r@.bx == 0 && r@.cx == 0 && r@.dx == 0,
            r@.si == 0 && r@.di == 0 && r@.bp == 0 && r@.sp == 0,
            r@.ip == 0,
            r@.zero == false && r@.sign == false,
            r.instr_len == 0,
            r@.prog_end == src@.len(),
            forall|j: int| 0 <= j < src@.len() ==> r@.mem[j] == src@[j],
            forall|j: int| src@.len() <= j < MEM_SIZE ==> r@.mem[j] == 0,
    {
        let program_size: usize = src.len();
        let mut memory: Vec<u8> = Vec::new();
        let mut i: usize = 0;
        while i < MEM_SIZE
            invariant
                i <= MEM_SIZE,
                src@.len() <= MEM_SIZE,
                memory@.len() == i,
                forall|j: int| 0 <= j < i && j < src@.len() ==> memory@[j] == src@[j],
                forall|j: int| src@.len() <= j < i ==> memory@[j] == 0,
            decreases MEM_SIZE - i,
        {
            if i < src.len() {
                let b: u8 = src[i];
                memory.push(b);
            } else {
                memory.push(0);
            }
            i = i + 1;
        }
        SimState {
            ax: 0,
            bx: 0,
            cx: 0,
            dx: 0,
            si: 0,
            di: 0,
            bp: 0,
            sp: 0,
            ip: 0,
            flags: Flags { zero: false, sign: false },
            instr_len: 0,
            program_size,
            memory,
        }
    }
}

impl Default for SimState {
    /// A machine with an empty program: all registers, flags and memory
    /// cleared.
    fn default() -> (r: Self)
        ensures
            r@.wf(),
            r@.ax == 0 && r@.bx == 0 && r@.cx == 0 && r@.dx == 0,
            r@.si == 0 && r@.di == 0 && r@.bp == 0 && r@.sp == 0,
            r@.ip == 0,
            r@.zero == false && r@.sign == false,
            r.instr_len == 0,
            r@.prog_end == 0,
            forall|j: int| 0 <= j < MEM_SIZE ==> r@.mem[j] == 0,
    {
        SimState::new(Vec::new())
    }
}

/// Whether a register name denotes an 8-bit half rather than a full word.
pub fn is_byte(reg: Reg) -> (r: bool)
    ensures
        r == reg.spec_is_byte(),
{
    match reg {
        Reg::Al | Reg::Cl | Reg::Dl | Reg::Bl | Reg::Ah | Reg::Ch | Reg::Dh | Reg::Bh => true,
        _ => false,
    }
}

/// The value of a word register in the machine model.
pub open spec fn spec_get_reg16(m: Machine, reg: Reg) -> u16 {
    match reg {
        Reg::Ax => m.ax,
        Reg::Bx => m.bx,
        Reg::Cx => m.cx,
        Reg::Dx => m.dx,
        Reg::Si => m.si,
        Reg::Di => m.di,
        Reg::Bp => m.bp,
        Reg::Sp => m.sp,
        _ => 0,
    }
}

/// The machine with one word register replaced.
pub open spec fn spec_set_reg16(m: Machine, reg: Reg, value: u16) -> Machine {
    match reg {
        Reg::Ax => Machine { ax: value, ..m },
        Reg::Bx => Machine { bx: value, ..m },
        Reg::Cx => Machine { cx: value, ..m },
        Reg::Dx => Machine { dx: value, ..m },
        Reg::Si => Machine { si: value, ..m },
        Reg::Di => Machine { di: value, ..m },
        Reg::Bp => Machine { bp: value, ..m },
        Reg::Sp => Machine { sp: value, ..m },
        _ => m,
    }
}

/// The value of a byte-half register in the machine model: the low or high
/// eight bits of its word register.
pub open spec fn spec_get_reg8(m: Machine, reg: Reg) -> u8 {
    match reg {
        Reg::Al => m.ax as u8,
        Reg::Ah => (m.ax >> 8) as u8,
        Reg::Bl => m.bx as u8,
        Reg::Bh => (m.bx >> 8) as u8,
        Reg::Cl => m.cx as u8,
        Reg::Ch => (m.cx >> 8) as u8,
        Reg::Dl => m.dx as u8,
        Reg::Dh => (m.dx >> 8) as u8,
        _ => 0,
    }
}

/// The machine with one byte-half register replaced, leaving the other half
/// of its word register as it was.
pub open spec fn spec_set_reg8(m: Machine, reg: Reg, value: u8) -> Machine {
    match reg {
        Reg::Al => Machine { ax: (m.ax & 0xFF00) | (value as u16), ..m },
        Reg::Ah => Machine { ax: (m.ax & 0x00FF) | ((value as u16) << 8), ..m },
        Reg::Bl => Machine { bx: (m.bx & 0xFF00) | (value as u16), ..m },
        Reg::Bh => Machine { bx: (m.bx & 0x00FF) | ((value as u16) << 8), ..m },
        Reg::Cl => Machine { cx: (m.cx & 0xFF00) | (value as u16), ..m },
        Reg::Ch => Machine { cx: (m.cx & 0x00FF) | ((value as u16) << 8), ..m },
        Reg::Dl => Machine { dx: (m.dx & 0xFF00) | (value as u16), ..m },
        Reg::Dh => Machine { dx: (m.dx & 0x00FF) | ((value as u16) << 8), ..m },
        _ => m,
    }
}

impl SimState {
    /// Reads a 16-bit register by name.
    pub fn get_register_16(&self, reg: Reg) -> (r: u16)
        requires
            !reg.spec_is_byte(),
        ensures
            r == spec_get_reg16(self@, reg),
    {
        match reg {
            Reg::Ax => self.ax,
            Reg::Bx => self.bx,
            Reg::Cx => self.cx,
            Reg::Dx => self.dx,
            Reg::Si => self.si,
            Reg::Di => self.di,
            Reg::Bp => self.bp,
            Reg::Sp => self.sp,
            _ => 0,
        }
    }

    /// Writes a 16-bit register by name; nothing else changes.
    pub fn set_register_16(&mut self, reg: Reg, value: u16)
        requires
            !reg.spec_is_byte(),
        ensures
            final(self)@ == spec_set_reg16(old(self)@, reg, value),
            final(self).instr_len == old(self).instr_len,
    {
        match reg {
            Reg::Ax => {
                self.ax = value;
            },
            Reg::Bx => {
                self.bx = value;
            },
            Reg::Cx => {
                self.cx = value;
            },
            Reg::Dx => {
                self.dx = value;
            },
            Reg::Si => {
                self.si = value;
            },
            Reg::Di => {
                self.di = value;
            },
            Reg::Bp => {
                self.bp = value;
            },
            Reg::Sp => {
                self.sp = value;
            },
            _ => {},
        }
    }

    /// Reads an 8-bit register half by name.
    pub fn get_register_8(&self, reg: Reg) -> (r: u8)
        requires
            reg.spec_is_byte(),
        ensures
            r == spec_get_reg8(self@, reg),
    {
        match reg {
            Reg::Al => #[verifier::truncate] (self.ax as u8),
            Reg::Ah => #[verifier::truncate] ((self.ax >> 8) as u8),
            Reg::Bl => #[verifier::truncate] (self.bx as u8),
            Reg::Bh => #[verifier::truncate] ((self.bx >> 8) as u8),
            Reg::Cl => #[verifier::truncate] (self.cx as u8),
            Reg::Ch => #[verifier::truncate] ((self.cx >> 8) as u8),
            Reg::Dl => #[verifier::truncate] (self.dx as u8),
            Reg::Dh => #[verifier::truncate] ((self.dx >> 8) as u8),
            _ => 0,
        }
    }

    /// Writes an 8-bit register half by name; the other half of the word
    /// register, and everything else, stays as it was.
    pub fn set_register_8(&mut self, reg: Reg, value: u8)
        requires
            reg.spec_is_byte(),
        ensures
            final(self)@ == spec_set_reg8(old(self)@, reg, value),
            final(self).instr_len == old(self).instr_len,
    {
        let v: u16 = value as u16;
        match reg {
            Reg::Al => {
                self.ax = (self.ax & 0xFF00) | v;
            },
            Reg::Ah => {
                self.ax = (self.ax & 0x00FF) | (v << 8);
            },
            Reg::Bl => {
                self.bx = (self.bx & 0xFF00) | v;
            },
            Reg::Bh => {
                self.bx = (self.bx & 0x00FF) | (v << 8);
            },
            Reg::Cl => {
                self.cx = (self.cx & 0xFF00) | v;
            },
            Reg::Ch => {
                self.cx = (self.cx & 0x00FF) | (v << 8);
            },
            Reg::Dl => {
                self.dx = (self.dx & 0xFF00) | v;
            },
            Reg::Dh => {
                self.dx = (self.dx & 0x00FF) | (v << 8);
            },
            _ => {},
        }
    }
}

/// The bit-level facts behind the register-half laws: storing one half
/// preserves the value stored and leaves the other half alone.
proof fn lemma_halves(x: u16, v: u8)
    by (bit_vector)
    ensures
        ((x & 0xFF00) | (v as u16)) as u8 == v,
        (((x & 0x00FF) | ((v as u16) << 8)) >> 8) as u8 == v,
        (((x & 0xFF00) | (v as u16)) >> 8) as u8 == (x >> 8) as u8,
        ((x & 0x00FF) | ((v as u16) << 8)) as u8 == x as u8,
{
}

/// Round trip for word registers: storing a 16-bit value in any word
/// register and reading it back yields the value unchanged.
pub proof fn lemma_reg16_roundtrip(m: Machine, reg: Reg, value: u16)
    requires
        !reg.spec_is_byte(),
    ensures
        spec_get_reg16(spec_set_reg16(m, reg, value), reg) == value,
{
}

/// Round trip for byte-half registers: storing an 8-bit value in any half
/// register and reading it back yields the value unchanged.
pub proof fn lemma_reg8_roundtrip(m: Machine, reg: Reg, value: u8)
    requires
        reg.spec_is_byte(),
    ensures
        spec_get_reg8(spec_set_reg8(m, reg, value), reg) == value,
{
    match reg {
        Reg::Al | Reg::Ah => lemma_halves(m.ax, value),
        Reg::Bl | Reg::Bh => lemma_halves(m.bx, value),
        Reg::Cl | Reg::Ch => lemma_halves(m.cx, value),
        Reg::Dl | Reg::Dh => lemma_halves(m.dx, value),
        _ => (),
    }
}

/// The other-half pairing of the byte registers.
pub open spec fn spec_other_half(reg: Reg) -> Reg {
    match reg {
        Reg::Al => Reg::Ah,
        Reg::Ah => Reg::Al,
        Reg::Bl => Reg::Bh,
        Reg::Bh => Reg::Bl,
        Reg::Cl => Reg::Ch,
        Reg::Ch => Reg::Cl,
        Reg::Dl => Reg::Dh,
        Reg::Dh => Reg::Dl,
        _ => reg,
    }
}

/// Width consistency: writing a byte-half register never disturbs the other
/// half of the same word register.
pub proof fn lemma_reg8_preserves_other_half(m: Machine, reg: Reg, value: u8)
    requires
        reg.spec_is_byte(),
    ensures
        spec_get_reg8(spec_set_reg8(m, reg, value), spec_other_half(reg)) == spec_get_reg8(
            m,
            spec_other_half(reg),
        ),
{
    match reg {
        Reg::Al | Reg::Ah => lemma_halves(m.ax, value),
        Reg::Bl | Reg::Bh => lemma_halves(m.bx, value),
        Reg::Cl | Reg::Ch => lemma_halves(m.cx, value),
        Reg::Dl | Reg::Dh => lemma_halves(m.dx, value),
        _ => (),
    }
}

/// The memory address an effective address resolves to: the fixed base
/// register or two-register sum for its mode, plus the signed displacement,
/// wrapping modulo 2^16.
pub open spec fn spec_ea(m: Machine, eac: EffectiveAddress) -> u16 {
    let base = match eac.spec_mode() {
        EffectiveAddressMode::BxSi => vstd::wrapping::u16_specs::wrapping_add(m.bx, m.si),
        EffectiveAddressMode::BxDi => vstd::wrapping::u16_specs::wrapping_add(m.bx, m.di),
        EffectiveAddressMode::BpSi => vstd::wrapping::u16_specs::wrapping_add(m.bp, m.si),
        EffectiveAddressMode::BpDi => vstd::wrapping::u16_specs::wrapping_add(m.bp, m.di),
        EffectiveAddressMode::Si => m.si,
        EffectiveAddressMode::Di => m.di,
        EffectiveAddressMode::Bp => m.bp,
        EffectiveAddressMode::Bx => m.bx,
    };
    vstd::wrapping::u16_specs::wrapping_add_signed(base, eac.spec_offset())
}

/// The byte an operand yields: a byte register's half, an 8-bit immediate,
/// or one memory byte. A word register, a word immediate, or an address past
/// the memory extent is a fault.
pub open spec fn spec_get_value_byte(m: Machine, loc: Location) -> Result<u8, Error> {
    match loc {
        Location::Reg(reg) => if reg.spec_is_byte() {
            Ok(spec_get_reg8(m, reg))
        } else {
            Err(Error::UnknownRegister)
        },
        Location::Immediate8(value) => Ok(value),
        Location::Immediate16(_) => Err(Error::InvalidOperand),
        Location::Mem(addr) => if (addr as int) < m.mem.len() {
            Ok(m.mem[addr as int])
        } else {
            Err(Error::OutOfBounds)
        },
        Location::Eac(eac) => {
            let addr = spec_ea(m, eac);
            if (addr as int) < m.mem.len() {
                Ok(m.mem[addr as int])
            } else {
                Err(Error::OutOfBounds)
            }
        },
    }
}

/// The machine after a byte is stored to an operand: a register half or one
/// memory byte. A write to an immediate, a word register, or an address past
/// the memory extent is a fault.
pub open spec fn spec_set_value_byte(m: Machine, loc: Location, value: u8) -> Result<
    Machine,
    Error,
> {
    match loc {
        Location::Reg(reg) => if reg.spec_is_byte() {
            Ok(spec_set_reg8(m, reg, value))
        } else {
            Err(Error::UnknownRegister)
        },
        Location::Immediate8(_) => Err(Error::InvalidOperand),
        Location::Immediate16(_) => Err(Error::InvalidOperand),
        Location::Mem(addr) => if (addr as int) < m.mem.len() {
            Ok(Machine { mem: m.mem.update(addr as int, value), ..m })
        } else {
            Err(Error::OutOfBounds)
        },
        Location::Eac(eac) => {
            let addr = spec_ea(m, eac);
            if (addr as int) < m.mem.len() {
                Ok(Machine { mem: m.mem.update(addr as int, value), ..m })
            } else {
                Err(Error::OutOfBounds)
            }
        },
    }
}

/// The word an operand yields: a word register, an immediate (a byte
/// immediate is zero-extended), or two little-endian memory bytes. A byte
/// register or a word read at the last memory byte is a fault.
pub open spec fn spec_get_value_word(m: Machine, loc: Location) -> Result<u16, Error> {
    match loc {
        Location::Reg(reg) => if !reg.spec_is_byte() {
            Ok(spec_get_reg16(m, reg))
        } else {
            Err(Error::UnknownRegister)
        },
        Location::Immediate8(value) => Ok(value as u16),
        Location::Immediate16(value) => Ok(value),
        Location::Mem(addr) => if (addr as int) + 1 < m.mem.len() {
            Ok(spec_le16(m.mem[addr as int], m.mem[addr as int + 1]))
        } else {
            Err(Error::OutOfBounds)
        },
        Location::Eac(eac) => {
            let addr = spec_ea(m, eac);
            if (addr as int) + 1 < m.mem.len() {
                Ok(spec_le16(m.mem[addr as int], m.mem[addr as int + 1]))
            } else {
                Err(Error::OutOfBounds)
            }
        },
    }
}

/// The machine after a word is stored to an operand: a word register or two
/// little-endian memory bytes, low byte at the lower address.
pub open spec fn spec_set_value_word(m: Machine, loc: Location, value: u16) -> Result<
    Machine,
    Error,
> {
    match loc {
        Location::Reg(reg) => if !reg.spec_is_byte() {
            Ok(spec_set_reg16(m, reg, value))
        } else {
            Err(Error::UnknownRegister)
        },
        Location::Immediate8(_) => Err(Error::InvalidOperand),
        Location::Immediate16(_) => Err(Error::InvalidOperand),
        Location::Mem(addr) => if (addr as int) + 1 < m.mem.len() {
            Ok(
                Machine {
                    mem: m.mem.update(addr as int, value as u8).update(
                        addr as int + 1,
                        (value >> 8) as u8,
                    ),
                    ..m
                },
            )
        } else {
            Err(Error::OutOfBounds)
        },
        Location::Eac(eac) => {
            let addr = spec_ea(m, eac);
            if (addr as int) + 1 < m.mem.len() {
                Ok(
                    Machine {
                        mem: m.mem.update(addr as int, value as u8).update(
                            addr as int + 1,
                            (value >> 8) as u8,
                        ),
                        ..m
                    },
                )
            } else {
                Err(Error::OutOfBounds)
            }
        },
    }
}

impl SimState {
    /// Resolves an effective address against the current register values.
    pub fn get_addr(&self, eac: &EffectiveAddress) -> (r: u16)
        ensures
            r == spec_ea(self@, *eac),
    {
        let offset = eac.offset();
        let base: u16 = match eac.mode() {
            EffectiveAddressMode::BxSi => self.bx.wrapping_add(self.si),
            EffectiveAddressMode::BxDi => self.bx.wrapping_add(self.di),
            EffectiveAddressMode::BpSi => self.bp.wrapping_add(self.si),
            EffectiveAddressMode::BpDi => self.bp.wrapping_add(self.di),
            EffectiveAddressMode::Si => self.si,
            EffectiveAddressMode::Di => self.di,
            EffectiveAddressMode::Bp => self.bp,
            EffectiveAddressMode::Bx => self.bx,
        };
        base.wrapping_add_signed(offset)
    }

    /// Reads an operand as a byte.
    pub fn get_value_byte(&self, loc: &Location) -> (r: Result<u8, Error>)
        ensures
            r == spec_get_value_byte(self@, *loc),
    {
        match loc {
            Location::Reg(reg) => {
                if is_byte(*reg) {
                    Ok(self.get_register_8(*reg))
                } else {
                    Err(Error::UnknownRegister)
                }
            },
            Location::Immediate8(value) => Ok(*value),
            Location::Immediate16(_) => Err(Error::InvalidOperand),
            Location::Mem(addr) => {
                let a: usize = *addr as usize;
                if a < self.memory.len() {
                    Ok(self.memory[a])
                } else {
                    Err(Error::OutOfBounds)
                }
            },
            Location::Eac(eac) => {
                let a: usize = self.get_addr(eac) as usize;
                if a < self.memory.len() {
                    Ok(self.memory[a])
                } else {
                    Err(Error::OutOfBounds)
                }
            },
        }
    }

    /// Stores a byte to an operand; on a fault nothing is changed.
    pub fn set_value_byte(&mut self, loc: &Location, value: u8) -> (r: Result<(), Error>)
        ensures
            match spec_set_value_byte(old(self)@, *loc, value) {
                Ok(m2) => r == Ok::<(), Error>(()) && final(self)@ == m2,
                Err(e) => r == Err::<(), Error>(e) && final(self)@ == old(self)@,
            },
            final(self).instr_len == old(self).instr_len,
    {
        match loc {
            Location::Reg(reg) => {
                if is_byte(*reg) {
                    self.set_register_8(*reg, value);
                    Ok(())
                } else {
                    Err(Error::UnknownRegister)
                }
            },
            Location::Immediate8(_) => Err(Error::InvalidOperand),
            Location::Immediate16(_) => Err(Error::InvalidOperand),
            Location::Mem(addr) => {
                let a: usize = *addr as usize;
                if a < self.memory.len() {
                    self.memory[a] = value;
                    Ok(())
                } else {
                    Err(Error::OutOfBounds)
                }
            },
            Location::Eac(eac) => {
                let a: usize = self.get_addr(eac) as usize;
                if a < self.memory.len() {
                    self.memory[a] = value;
                    Ok(())
                } else {
                    Err(Error::OutOfBounds)
                }
            },
        }
    }

    /// Reads an operand as a word; memory reads are little-endian.
    pub fn get_value_word(&self, loc: &Location) -> (r: Result<u16, Error>)
        ensures
            r == spec_get_value_word(self@, *loc),
    {
        match loc {
            Location::Reg(reg) => {
                if !is_byte(*reg) {
                    Ok(self.get_register_16(*reg))
                } else {
                    Err(Error::UnknownRegister)
                }
            },
            Location::Immediate8(value) => Ok(*value as u16),
            Location::Immediate16(value) => Ok(*value),
            Location::Mem(addr) => {
                let a: usize = *addr as usize;
                if a + 1 < self.memory.len() {
                    let low = self.memory[a];
                    let high = self.memory[a + 1];
                    Ok((high as u16) << 8 | (low as u16))
                } else {
                    Err(Error::OutOfBounds)
                }
            },
            Location::Eac(eac) => {
                let a: usize = self.get_addr(eac) as usize;
                if a + 1 < self.memory.len() {
                    let low = self.memory[a];
                    let high = self.memory[a + 1];
                    Ok((high as u16) << 8 | (low as u16))
                } else {
                    Err(Error::OutOfBounds)
                }
            },
        }
    }

    /// Stores a word to an operand, low byte at the lower address; on a
    /// fault nothing is changed.
    pub fn set_value_word(&mut self, loc: &Location, value: u16) -> (r: Result<(), Error>)
        ensures
            match spec_set_value_word(old(self)@, *loc, value) {
                Ok(m2) => r == Ok::<(), Error>(()) && final(self)@ == m2,
                Err(e) => r == Err::<(), Error>(e) && final(self)@ == old(self)@,
            },
            final(self).instr_len == old(self).instr_len,
    {
        match loc {
            Location::Reg(reg) => {
                if !is_byte(*reg) {
                    self.set_register_16(*reg, value);
                    Ok(())
                } else {
                    Err(Error::UnknownRegister)
                }
            },
            Location::Immediate8(_) => Err(Error::InvalidOperand),
            Location::Immediate16(_) => Err(Error::InvalidOperand),
            Location::Mem(addr) => {
                let a: usize = *addr as usize;
                if a + 1 < self.memory.len() {
                    self.memory[a] = #[verifier::truncate] (value as u8);
                    self.memory[a + 1] = #[verifier::truncate] ((value >> 8) as u8);
                    Ok(())
                } else {
                    Err(Error::OutOfBounds)
                }
            },
            Location::Eac(eac) => {
                let a: usize = self.get_addr(eac) as usize;
                if a + 1 < self.memory.len() {
                    self.memory[a] = #[verifier::truncate] (value as u8);
                    self.memory[a + 1] = #[verifier::truncate] ((value >> 8) as u8);
                    Ok(())
                } else {
                    Err(Error::OutOfBounds)
                }
            },
        }
    }
}

/// The machine after a data move, or the fault it meets. The width is
/// inferred: a word if either operand is word-sized or neither implies a
/// width, a byte if either operand implies one; faults of the operand reads
/// and writes pass through, and a faulting move leaves the machine
/// untouched.
pub open spec fn spec_exec_mov(m: Machine, mov: MoveInstr) -> Result<Machine, Error> {
    match (mov.dest.spec_implied_size(), mov.src.spec_implied_size()) {
        (None, None) | (Some(Size::Word), _) | (_, Some(Size::Word)) => match spec_get_value_word(
            m,
            mov.src,
        ) {
            Ok(value) => spec_set_value_word(m, mov.dest, value),
            Err(e) => Err(e),
        },
        (Some(Size::Byte), _) | (_, Some(Size::Byte)) => match spec_get_value_byte(m, mov.src) {
            Ok(value) => spec_set_value_byte(m, mov.dest, value),
            Err(e) => Err(e),
        },
    }
}

/// The machine after one instruction is applied, or the fault it meets.
pub open spec fn spec_exec(m: Machine, instr: Instr) -> Result<Machine, Error> {
    match instr {
        Instr::Mov(mov) => spec_exec_mov(m, mov),
        Instr::Op(op) => spec_exec_op(m, op),
        Instr::Je(offset) => Ok(spec_exec_je(m, offset)),
        Instr::Jne(offset) => Ok(spec_exec_jne(m, offset)),
    }
}

impl SimState {
    /// Applies a data move at the inferred width; on a fault nothing is
    /// changed.
    pub fn execute_mov(&mut self, mov: &MoveInstr) -> (r: Result<(), Error>)
        ensures
            match spec_exec_mov(old(self)@, *mov) {
                Ok(m2) => r == Ok::<(), Error>(()) && final(self)@ == m2,
                Err(e) => r == Err::<(), Error>(e) && final(self)@ == old(self)@,
            },
            final(self).instr_len == old(self).instr_len,
    {
        match (mov.dest.implied_size(), mov.src.implied_size()) {
            (None, None) | (Some(Size::Word), _) | (_, Some(Size::Word)) => {
                let value = match self.get_value_word(&mov.src) {
                    Ok(v) => v,
                    Err(e) => {
                        return Err(e);
                    },
                };
                self.set_value_word(&mov.dest, value)
            },
            (Some(Size::Byte), _) | (_, Some(Size::Byte)) => {
                let value = match self.get_value_byte(&mov.src) {
                    Ok(v) => v,
                    Err(e) => {
                        return Err(e);
                    },
                };
                self.set_value_byte(&mov.dest, value)
            },
        }
    }

    /// Applies one decoded instruction to the machine; on a fault nothing is
    /// changed.
    pub fn execute(&mut self, instr: &Instr) -> (r: Result<(), Error>)
        ensures
            match spec_exec(old(self)@, *instr) {
                Ok(m2) => r == Ok::<(), Error>(()) && final(self)@ == m2,
                Err(e) => r == Err::<(), Error>(e) && final(self)@ == old(self)@,
            },
            final(self).instr_len == old(self).instr_len,
    {
        match instr {
            Instr::Mov(mov) => self.execute_mov(mov),
            Instr::Op(op) => op.execute(self),
            Instr::Je(offset) => {
                self.execute_je(*offset);
                Ok(())
            },
            Instr::Jne(offset) => {
                self.execute_jne(*offset);
                Ok(())
            },
        }
    }
}

/// The register dump of a machine: one line per word register, each value as
/// four lowercase hexadecimal digits.
pub open spec fn spec_dump(m: Machine) -> Seq<char> {
    "ax: "@ + crate::text::spec_hex4(m.ax) + "\n"@ + "bx: "@ + crate::text::spec_hex4(m.bx) + "\n"@
        + "cx: "@ + crate::text::spec_hex4(m.cx) + "\n"@ + "dx: "@ + crate::text::spec_hex4(m.dx)
        + "\n"@ + "sp: "@ + crate::text::spec_hex4(m.sp) + "\n"@ + "bp: "@ + crate::text::spec_hex4(
        m.bp,
    ) + "\n"@ + "si: "@ + crate::text::spec_hex4(m.si) + "\n"@ + "di: "@ + crate::text::spec_hex4(
        m.di,
    ) + "\n"@
}

impl SimState {
    /// Renders the register dump of this machine.
    pub fn text(&self) -> (r: String)
        ensures
            r@ == spec_dump(self@),
    {
        proof {
            reveal_strlit("ax: ");
            reveal_strlit("bx: ");
            reveal_strlit("cx: ");
            reveal_strlit("dx: ");
            reveal_strlit("sp: ");
            reveal_strlit("bp: ");
            reveal_strlit("si: ");
            reveal_strlit("di: ");
            reveal_strlit("\n");
        }
        let mut s = "ax: ".to_owned();
        let ax = crate::text::hex_u16(self.ax);
        s.append(ax.as_str());
        s.append("\n");
        s.append("bx: ");
        let bx = crate::text::hex_u16(self.bx);
        s.append(bx.as_str());
        s.append("\n");
        s.append("cx: ");
        let cx = crate::text::hex_u16(self.cx);
        s.append(cx.as_str());
        s.append("\n");
        s.append("dx: ");
        let dx = crate::text::hex_u16(self.dx);
        s.append(dx.as_str());
        s.append("\n");
        s.append("sp: ");
        let sp = crate::text::hex_u16(self.sp);
        s.append(sp.as_str());
        s.append("\n");
        s.append("bp: ");
        let bp = crate::text::hex_u16(self.bp);
        s.append(bp.as_str());
        s.append("\n");
        s.append("si: ");
        let si = crate::text::hex_u16(self.si);
        s.append(si.as_str());
        s.append("\n");
        s.append("di: ");
        let di = crate::text::hex_u16(self.di);
        s.append(di.as_str());
        s.append("\n");
        proof {
            assert(s@ =~= spec_dump(self@));
        }
        s
    }
}

/// Whether the instruction pointer still lies inside the loaded program.
pub open spec fn spec_has_more(m: Machine) -> bool {
    m.ip < m.prog_end
}

/// One fetch-decode-execute step of the machine: decode at the instruction
/// pointer, advance it by the encoded length, then apply the instruction.
pub open spec fn spec_step(m: Machine) -> Result<Machine, Error> {
    match spec_decode(m.mem, m.ip as int) {
        Ok((instr, l)) => spec_exec(Machine { ip: ((m.ip + l) % 0x10000) as u16, ..m }, instr),
        Err(e) => Err(e),
    }
}

/// The machine after at most `n` fetch-decode-execute steps, stopping early
/// once the instruction pointer leaves the program, or the first fault met.
pub open spec fn spec_run_n(m: Machine, n: nat) -> Result<Machine, Error>
    decreases n,
{
    if n == 0 {
        Ok(m)
    } else if !spec_has_more(m) {
        Ok(m)
    } else {
        match spec_step(m) {
            Ok(m2) => spec_run_n(m2, (n - 1) as nat),
            Err(e) => Err(e),
        }
    }
}

/// The run loop finished: some number of steps carries the starting machine
/// to the final one, whose instruction pointer has left the program.
pub open spec fn spec_run_completes(m0: Machine, mf: Machine) -> bool {
    exists|n: nat| #[trigger] spec_run_n(m0, n) == Ok::<Machine, Error>(mf) && !spec_has_more(mf)
}

/// The run loop stopped on a fault: some number of steps carries the
/// starting machine to one whose next step meets the fault, and the final
/// machine is that one — with its instruction pointer already advanced when
/// the fault arose in execution rather than in decoding.
pub open spec fn spec_run_fails_with(m0: Machine, mf: Machine, e: Error) -> bool {
    exists|n: nat|
        {
            &&& #[trigger] spec_run_n(m0, n) is Ok
            &&& {
                let mk = spec_run_n(m0, n)->Ok_0;
                &&& spec_has_more(mk)
                &&& match spec_decode(mk.mem, mk.ip as int) {
                    Err(e2) => e2 == e && mf == mk,
                    Ok((instr, l)) => {
                        let m2 = Machine { ip: ((mk.ip + l) % 0x10000) as u16, ..mk };
                        spec_exec(m2, instr) == Err::<Machine, Error>(e) && mf == m2
                    },
                }
            }
        }
}

/// Extending a run of successful steps by one more step.
proof fn lemma_run_n_snoc(m0: Machine, n: nat, mk: Machine, m2: Machine)
    requires
        spec_run_n(m0, n) == Ok::<Machine, Error>(mk),
        spec_has_more(mk),
        spec_step(mk) == Ok::<Machine, Error>(m2),
    ensures
        spec_run_n(m0, n + 1) == Ok::<Machine, Error>(m2),
    decreases n,
{
    reveal_with_fuel(spec_run_n, 2);
    if n == 0 {
    } else if !spec_has_more(m0) {
    } else {
        match spec_step(m0) {
            Ok(m1) => {
                lemma_run_n_snoc(m1, (n - 1) as nat, mk, m2);
            },
            Err(_) => (),
        }
    }
}

/// The step budget of the run loop: far beyond anything a real program
/// reaches, so that in practice the loop runs to completion or to a fault.
pub const STEP_LIMIT: u64 = 0xFFFF_FFFF_FFFF_FFFF;

impl SimState {
    /// Runs the fetch-decode-execute loop until the instruction pointer
    /// leaves the loaded program, or stops at the first fault, leaving the
    /// machine exactly where the faulting step left it. A program still
    /// running after [`STEP_LIMIT`] steps is left exactly where that many
    /// steps put it.
    #[verifier::rlimit(60)]
    #[verifier::loop_isolation(false)]
    pub fn run(&mut self) -> (r: Result<(), Error>)
        requires
            old(self)@.wf(),
            old(self).instr_len == 0,
        ensures
            final(self)@.wf(),
            match r {
                Ok(()) => spec_run_completes(old(self)@, final(self)@) || spec_run_n(
                    old(self)@,
                    STEP_LIMIT as nat,
                ) == Ok::<Machine, Error>(final(self)@),
                Err(e) => spec_run_fails_with(old(self)@, final(self)@, e),
            },
    {
        let ghost m0: Machine = self@;
        let ghost mut steps: nat = 0;
        let mut fuel: u64 = STEP_LIMIT;
        while fuel > 0 && self.has_more()
            invariant
                self@.wf(),
                self.instr_len == 0,
                steps + fuel == STEP_LIMIT,
                spec_run_n(m0, steps) == Ok::<Machine, Error>(self@),
            decreases fuel,
        {
            fuel = fuel - 1;
            let ghost mk: Machine = self@;
            let instr = match decode_instr(self) {
                Ok(i) => i,
                Err(e) => {
                    proof {
                        assert(self@ == mk);
                        assert(spec_run_n(m0, steps) is Ok);
                    }
                    return Err(e);
                },
            };
            proof {
                lemma_spec_decode_len(mk.mem, mk.ip as int);
            }
            self.advance();
            proof {
                assert(self@ == Machine { ip: self@.ip, ..mk });
            }
            match self.execute(&instr) {
                Ok(()) => {},
                Err(e) => {
                    proof {
                        if let Ok((i, l)) = spec_decode(mk.mem, mk.ip as int) {
                            assert(self@ == Machine { ip: ((mk.ip + l) % 0x10000) as u16, ..mk });
                            assert(spec_exec(self@, i) == Err::<Machine, Error>(e));
                        }
                        assert(spec_run_n(m0, steps) is Ok);
                    }
                    return Err(e);
                },
            }
            proof {
                lemma_run_n_snoc(m0, steps, mk, self@);
                steps = steps + 1;
            }
        }
        proof {
            assert(spec_run_n(m0, steps) == Ok::<Machine, Error>(self@));
        }
        Ok(())
    }
}

} // verus!
