//! The register file: seven byte registers, the stack pointer, the program
//! counter and the four flags.
use vstd::prelude::*;

verus! {

/// The flag set {Z, N, H, C}.
#[derive(Copy, Clone, PartialEq, Eq, Structural)]
pub struct Flags {
    pub z: bool,
    pub n: bool,
    pub h: bool,
    pub c: bool,
}

/// The flag register as a byte: Z, N, H, C in bits 7 to 4, the low nibble zero.
pub open spec fn flags_byte(f: Flags) -> int {
    (if f.z { 128int } else { 0 }) + (if f.n { 64int } else { 0 }) + (if f.h { 32int } else { 0 })
        + (if f.c { 16int } else { 0 })
}

impl Flags {
    /// Flags read from the high nibble of a byte; the low nibble is dropped.
    pub fn from_byte(v: u8) -> (r: Flags)
        ensures
            r.z == (v / 128 % 2 == 1),
            r.n == (v / 64 % 2 == 1),
            r.h == (v / 32 % 2 == 1),
            r.c == (v / 16 % 2 == 1),
    {
        Flags { z: v / 128 % 2 == 1, n: v / 64 % 2 == 1, h: v / 32 % 2 == 1, c: v / 16 % 2 == 1 }
    }

    /// The flag byte; its low nibble always reads as zero.
    pub fn to_byte(self) -> (r: u8)
        ensures
            r == flags_byte(self),
            r % 16 == 0,
    {
        (if self.z { 0x80u8 } else { 0 }) + (if self.n { 0x40u8 } else { 0 }) + (if self.h {
            0x20u8
        } else {
            0
        }) + (if self.c { 0x10u8 } else { 0 })
    }
}

/// Reading a byte back as flags and writing it again clears its low nibble only.
pub proof fn lemma_flags_byte_round_trip(v: u8)
    ensures
        flags_byte(
            Flags { z: v / 128 % 2 == 1, n: v / 64 % 2 == 1, h: v / 32 % 2 == 1, c: v / 16 % 2 == 1 },
        ) == v - v % 16,
{
}

/// The byte registers.
#[derive(Copy, Clone, PartialEq, Eq, Structural)]
pub enum Reg8 {
    A,
    B,
    C,
    D,
    E,
    H,
    L,
}

/// The register pairs and the stack pointer.
#[derive(Copy, Clone, PartialEq, Eq, Structural)]
pub enum Reg16 {
    AF,
    BC,
    DE,
    HL,
    SP,
}

/// A write to one register or register pair.
#[derive(Copy, Clone, PartialEq, Eq, Structural)]
pub enum RegWrite {
    A(u8),
    B(u8),
    C(u8),
    D(u8),
    E(u8),
    H(u8),
    L(u8),
    AF(u16),
    BC(u16),
    DE(u16),
    HL(u16),
    SP(u16),
}

pub struct Registers {
    pub a: u8,
    pub b: u8,
    pub c: u8,
    pub d: u8,
    pub e: u8,
    pub h: u8,
    pub l: u8,
    pub sp: u16,
    pub pc: u16,
    pub flags: Flags,
}

/// A pair of bytes as a big-endian word.
pub open spec fn pair(hi: u8, lo: u8) -> int {
    hi * 256 + lo
}

impl Registers {
    pub open spec fn spec_reg8(&self, r: Reg8) -> u8 {
        match r {
            Reg8::A => self.a,
            Reg8::B => self.b,
            Reg8::C => self.c,
            Reg8::D => self.d,
            Reg8::E => self.e,
            Reg8::H => self.h,
            Reg8::L => self.l,
        }
    }

    pub open spec fn spec_reg16(&self, r: Reg16) -> int {
        match r {
            Reg16::AF => self.a * 256 + flags_byte(self.flags),
            Reg16::BC => pair(self.b, self.c),
            Reg16::DE => pair(self.d, self.e),
            Reg16::HL => pair(self.h, self.l),
            Reg16::SP => self.sp as int,
        }
    }

    /// All registers zero and all flags clear.
    pub fn new() -> (r: Registers)
        ensures
            r.a == 0 && r.b == 0 && r.c == 0 && r.d == 0 && r.e == 0 && r.h == 0 && r.l == 0,
            r.sp == 0 && r.pc == 0,
            r.flags == (Flags { z: false, n: false, h: false, c: false }),
    {
        Registers {
            a: 0,
            b: 0,
            c: 0,
            d: 0,
            e: 0,
            h: 0,
            l: 0,
            sp: 0,
            pc: 0,
            flags: Flags { z: false, n: false, h: false, c: false },
        }
    }

    pub fn reg8(&self, src: Reg8) -> (r: u8)
        ensures
            r == self.spec_reg8(src),
    {
        match src {
            Reg8::A => self.a,
            Reg8::B => self.b,
            Reg8::C => self.c,
            Reg8::D => self.d,
            Reg8::E => self.e,
            Reg8::H => self.h,
            Reg8::L => self.l,
        }
    }

    /// A register pair read as a big-endian word; AF reads with its low
    /// nibble zero.
    pub fn reg16(&self, src: Reg16) -> (r: u16)
        ensures
            r == self.spec_reg16(src),
            src == Reg16::AF ==> r % 16 == 0,
    {
        match src {
            Reg16::AF => self.a as u16 * 256 + self.flags.to_byte() as u16,
            Reg16::BC => self.b as u16 * 256 + self.c as u16,
            Reg16::DE => self.d as u16 * 256 + self.e as u16,
            Reg16::HL => self.h as u16 * 256 + self.l as u16,
            Reg16::SP => self.sp,
        }
    }

    /// Writes one register or pair; a pair takes its high byte in the first
    /// register. Writing AF keeps only the high nibble of F.
    pub fn write(&mut self, dest: RegWrite)
        ensures
            final(self).pc == old(self).pc,
            match dest {
                RegWrite::A(v) => *final(self) == Registers { a: v, ..*old(self) },
                RegWrite::B(v) => *final(self) == Registers { b: v, ..*old(self) },
                RegWrite::C(v) => *final(self) == Registers { c: v, ..*old(self) },
                RegWrite::D(v) => *final(self) == Registers { d: v, ..*old(self) },
                RegWrite::E(v) => *final(self) == Registers { e: v, ..*old(self) },
                RegWrite::H(v) => *final(self) == Registers { h: v, ..*old(self) },
                RegWrite::L(v) => *final(self) == Registers { l: v, ..*old(self) },
                RegWrite::AF(v) => final(self).spec_reg16(Reg16::AF) == v - v % 16
                    && *final(self) == Registers {
                    a: final(self).a,
                    flags: final(self).flags,
                    ..*old(self)
                },
                RegWrite::BC(v) => final(self).spec_reg16(Reg16::BC) == v && *final(self)
                    == Registers { b: final(self).b, c: final(self).c, ..*old(self) },
                RegWrite::DE(v) => final(self).spec_reg16(Reg16::DE) == v && *final(self)
                    == Registers { d: final(self).d, e: final(self).e, ..*old(self) },
                RegWrite::HL(v) => final(self).spec_reg16(Reg16::HL) == v && *final(self)
                    == Registers { h: final(self).h, l: final(self).l, ..*old(self) },
                RegWrite::SP(v) => *final(self) == Registers { sp: v, ..*old(self) },
            },
    {
        match dest {
            RegWrite::A(v) => self.a = v,
            RegWrite::B(v) => self.b = v,
            RegWrite::C(v) => self.c = v,
            RegWrite::D(v) => self.d = v,
            RegWrite::E(v) => self.e = v,
            RegWrite::H(v) => self.h = v,
            RegWrite::L(v) => self.l = v,
            RegWrite::AF(v) => {
                self.a = (v / 256) as u8;
                self.flags = Flags::from_byte((v % 256) as u8);
                proof {
                    lemma_flags_byte_round_trip((v % 256) as u8);
                }
            },
            RegWrite::BC(v) => {
                self.b = (v / 256) as u8;
                self.c = (v % 256) as u8;
            },
            RegWrite::DE(v) => {
                self.d = (v / 256) as u8;
                self.e = (v % 256) as u8;
            },
            RegWrite::HL(v) => {
                self.h = (v / 256) as u8;
                self.l = (v % 256) as u8;
            },
            RegWrite::SP(v) => self.sp = v,
        }
    }
}

} // verus!
