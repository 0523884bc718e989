//! Instructions and their decoding from opcode bytes.
use vstd::prelude::*;

verus! {

/// An operand of the byte-register kind; `HLInd` is the byte at address HL.
#[derive(Copy, Clone, PartialEq, Eq, Structural)]
pub enum R8 {
    A,
    B,
    C,
    D,
    E,
    H,
    L,
    HLInd,
}

/// Sixteen-bit operands of the arithmetic and load instructions.
#[derive(Copy, Clone, PartialEq, Eq, Structural)]
pub enum R16 {
    BC,
    DE,
    HL,
    SP,
}

/// Addresses held in a register pair, with HL stepped after the access.
#[derive(Copy, Clone, PartialEq, Eq, Structural)]
pub enum Indirect {
    BC,
    DE,
    HLInc,
    HLDec,
}

/// The low byte of an I/O address at 0xFF00: register C or an immediate.
#[derive(Copy, Clone, PartialEq, Eq, Structural)]
pub enum Io {
    C,
    Imm(u8),
}

/// The second operand of the arithmetic-logic instructions.
#[derive(Copy, Clone, PartialEq, Eq, Structural)]
pub enum AluSrc {
    R8(R8),
    Imm(u8),
}

/// A bit position, 0 to 7.
#[derive(Copy, Clone, PartialEq, Eq, Structural)]
pub enum BitPos {
    Zero,
    One,
    Two,
    Three,
    Four,
    Five,
    Six,
    Seven,
}

/// The condition of a conditional branch.
#[derive(Copy, Clone, PartialEq, Eq, Structural)]
pub enum BranchCond {
    NZ,
    Z,
    NC,
    C,
}

/// The register pairs that the stack instructions move.
#[derive(Copy, Clone, PartialEq, Eq, Structural)]
pub enum PushPop {
    BC,
    DE,
    HL,
    AF,
}

/// The kinds of load.
#[derive(Copy, Clone, PartialEq, Eq, Structural)]
pub enum LdType {
    R8(R8, R8),
    R8Imm(R8, u8),
    R16Imm(R16, u16),
    AFromInd(Indirect),
    IndFromA(Indirect),
    AFromIoReg(Io),
    IoRegFromA(Io),
    AFromMem(u16),
    MemFromA(u16),
    StoreSP(u16),
    HLFromSP(i8),
    SPFromHL,
}

#[derive(Copy, Clone, PartialEq, Eq, Structural)]
pub enum Instruction {
    Nop,
    Ld(LdType),
    Add(AluSrc),
    Adc(AluSrc),
    Sub(AluSrc),
    Sbc(AluSrc),
    And(AluSrc),
    Xor(AluSrc),
    Or(AluSrc),
    Cp(AluSrc),
    IncR8(R8),
    DecR8(R8),
    IncR16(R16),
    DecR16(R16),
    AddHL(R16),
    AddSP(i8),
    Rlc(R8),
    Rrc(R8),
    Rl(R8),
    Rr(R8),
    Sla(R8),
    Sra(R8),
    Swap(R8),
    Srl(R8),
    Bit(BitPos, R8),
    Res(BitPos, R8),
    SetBit(BitPos, R8),
    Rlca,
    Rla,
    Rrca,
    Rra,
    Jr(BranchCond, i8),
    JrAlways(i8),
    Jp(BranchCond, u16),
    JpAlways(u16),
    Call(BranchCond, u16),
    CallAlways(u16),
    Ret(BranchCond),
    RetAlways,
    Rst(u8),
    Reti,
    JpHL,
    Push(PushPop),
    Pop(PushPop),
    Scf,
    Ccf,
    Daa,
    Cpl,
    Stop,
    Halt,
    Di,
    Ei,
}

/// The number of machine cycles an instruction takes: one count, or the
/// counts when a condition fails and when it holds.
#[derive(Copy, Clone, PartialEq, Eq, Structural)]
pub enum CycleCount {
    Const(u64),
    Branch(u64, u64),
}

/// The opcodes that have no instruction.
pub open spec fn is_illegal_opcode(op: u8) -> bool {
    op == 0xd3 || op == 0xdb || op == 0xdd || op == 0xe3 || op == 0xe4 || op == 0xeb || op
        == 0xec || op == 0xed || op == 0xf4 || op == 0xfc || op == 0xfd
}

/// The opcodes followed by a one-byte operand (including the 0xCB prefix).
pub open spec fn has_imm8(op: u8) -> bool {
    op == 0xcb || (op < 0x40 && op % 8 == 6) || op == 0x18 || op == 0x20 || op == 0x28 || op
        == 0x30 || op == 0x38 || (op >= 0xc0 && op % 8 == 6) || op == 0xe0 || op == 0xf0 || op
        == 0xe8 || op == 0xf8
}

/// The opcodes followed by a two-byte operand.
pub open spec fn has_imm16(op: u8) -> bool {
    op == 0x01 || op == 0x11 || op == 0x21 || op == 0x31 || op == 0x08 || op == 0xc2 || op
        == 0xca || op == 0xd2 || op == 0xda || op == 0xc3 || op == 0xc4 || op == 0xcc || op
        == 0xd4 || op == 0xdc || op == 0xcd || op == 0xea || op == 0xfa
}

/// The length in bytes of the instruction that starts with `op`.
pub open spec fn opcode_length(op: u8) -> int {
    if has_imm16(op) { 3 } else if has_imm8(op) { 2 } else { 1 }
}

/// The operand that the three bits `v` select (B, C, D, E, H, L, (HL), A).
pub open spec fn r8_of(v: u8) -> R8 {
    if v == 0 { R8::B }
    else if v == 1 { R8::C }
    else if v == 2 { R8::D }
    else if v == 3 { R8::E }
    else if v == 4 { R8::H }
    else if v == 5 { R8::L }
    else if v == 6 { R8::HLInd }
    else { R8::A }
}

/// The bit position that the three bits `v` select.
pub open spec fn bitpos_of(v: u8) -> BitPos {
    if v == 0 { BitPos::Zero }
    else if v == 1 { BitPos::One }
    else if v == 2 { BitPos::Two }
    else if v == 3 { BitPos::Three }
    else if v == 4 { BitPos::Four }
    else if v == 5 { BitPos::Five }
    else if v == 6 { BitPos::Six }
    else { BitPos::Seven }
}

pub open spec fn r16_of(v: u8) -> R16 {
    if v == 0 { R16::BC } else if v == 1 { R16::DE } else if v == 2 { R16::HL } else { R16::SP }
}

pub open spec fn ind_of(v: u8) -> Indirect {
    if v == 0 { Indirect::BC } else if v == 1 { Indirect::DE } else if v == 2 { Indirect::HLInc } else { Indirect::HLDec }
}

pub open spec fn cond_of(v: u8) -> BranchCond {
    if v == 0 { BranchCond::NZ } else if v == 1 { BranchCond::Z } else if v == 2 { BranchCond::NC } else { BranchCond::C }
}

pub open spec fn push_pop_of(v: u8) -> PushPop {
    if v == 0 { PushPop::BC } else if v == 1 { PushPop::DE } else if v == 2 { PushPop::HL } else { PushPop::AF }
}

/// The instruction of the 0xCB prefix table for second byte `b1`.
pub open spec fn spec_decode_cb(b1: u8) -> Instruction {
    let bit = bitpos_of((b1 / 8) % 8);
    let r = r8_of(b1 % 8);
    if b1 < 0x08 { Instruction::Rlc(r) }
    else if b1 < 0x10 { Instruction::Rrc(r) }
    else if b1 < 0x18 { Instruction::Rl(r) }
    else if b1 < 0x20 { Instruction::Rr(r) }
    else if b1 < 0x28 { Instruction::Sla(r) }
    else if b1 < 0x30 { Instruction::Sra(r) }
    else if b1 < 0x38 { Instruction::Swap(r) }
    else if b1 < 0x40 { Instruction::Srl(r) }
    else if b1 < 0x80 { Instruction::Bit(bit, r) }
    else if b1 < 0xc0 { Instruction::Res(bit, r) }
    else { Instruction::SetBit(bit, r) }
}

/// The instruction that opcode `op` with operand bytes `b1`, `b2` encodes:
/// bits 3-5 and 0-2 of the opcode select registers, pairs, conditions and
/// operations; `None` for the opcodes with no instruction.
pub open spec fn spec_decode(op: u8, b1: u8, b2: u8) -> Option<Instruction> {
    let lo3 = op % 8;
    let hi3 = (op / 8) % 8;
    let hi2 = hi3 / 2;
    let imm16 = (b2 * 256 + b1) as u16;
    if is_illegal_opcode(op) {
        None
    } else {
        Some(
            if op == 0x00 { Instruction::Nop }
            else if op == 0x76 { Instruction::Halt }
            else if op == 0x08 { Instruction::Ld(LdType::StoreSP(imm16)) }
            else if op == 0x07 { Instruction::Rlca }
            else if op == 0x0f { Instruction::Rrca }
            else if op == 0x10 { Instruction::Stop }
            else if op == 0x17 { Instruction::Rla }
            else if op == 0x18 { Instruction::JrAlways(b1 as i8) }
            else if op == 0x1f { Instruction::Rra }
            else if op == 0x27 { Instruction::Daa }
            else if op == 0x2f { Instruction::Cpl }
            else if op == 0x37 { Instruction::Scf }
            else if op == 0x3f { Instruction::Ccf }
            else if op == 0x20 || op == 0x28 || op == 0x30 || op == 0x38 { Instruction::Jr(cond_of(hi3 % 4), b1 as i8) }
            else if op < 0x40 && op % 16 == 1 { Instruction::Ld(LdType::R16Imm(r16_of(hi2), imm16)) }
            else if op < 0x40 && op % 16 == 2 { Instruction::Ld(LdType::IndFromA(ind_of(hi2))) }
            else if op < 0x40 && op % 16 == 3 { Instruction::IncR16(r16_of(hi2)) }
            else if op < 0x40 && op % 16 == 9 { Instruction::AddHL(r16_of(hi2)) }
            else if op < 0x40 && op % 16 == 10 { Instruction::Ld(LdType::AFromInd(ind_of(hi2))) }
            else if op < 0x40 && op % 16 == 11 { Instruction::DecR16(r16_of(hi2)) }
            else if op < 0x40 && lo3 == 4 { Instruction::IncR8(r8_of(hi3)) }
            else if op < 0x40 && lo3 == 5 { Instruction::DecR8(r8_of(hi3)) }
            else if op < 0x40 && lo3 == 6 { Instruction::Ld(LdType::R8Imm(r8_of(hi3), b1)) }
            else if op < 0x80 { Instruction::Ld(LdType::R8(r8_of(hi3), r8_of(lo3))) }
            else if op < 0xc0 { alu_of(hi3, AluSrc::R8(r8_of(lo3))) }
            else if op == 0xc0 || op == 0xd0 || op == 0xc8 || op == 0xd8 { Instruction::Ret(cond_of(hi3 % 4)) }
            else if op == 0xc1 || op == 0xd1 || op == 0xe1 || op == 0xf1 { Instruction::Pop(push_pop_of(hi2)) }
            else if op == 0xc2 || op == 0xd2 || op == 0xca || op == 0xda { Instruction::Jp(cond_of(hi3 % 4), imm16) }
            else if op == 0xc4 || op == 0xd4 || op == 0xcc || op == 0xdc { Instruction::Call(cond_of(hi3 % 4), imm16) }
            else if op == 0xc5 || op == 0xd5 || op == 0xe5 || op == 0xf5 { Instruction::Push(push_pop_of(hi2)) }
            else if lo3 == 6 { alu_of(hi3, AluSrc::Imm(b1)) }
            else if lo3 == 7 { Instruction::Rst((hi3 * 8) as u8) }
            else if op == 0xcb { spec_decode_cb(b1) }
            else if op == 0xe0 { Instruction::Ld(LdType::IoRegFromA(Io::Imm(b1))) }
            else if op == 0xe2 { Instruction::Ld(LdType::IoRegFromA(Io::C)) }
            else if op == 0xea { Instruction::Ld(LdType::MemFromA(imm16)) }
            else if op == 0xf0 { Instruction::Ld(LdType::AFromIoReg(Io::Imm(b1))) }
            else if op == 0xf2 { Instruction::Ld(LdType::AFromIoReg(Io::C)) }
            else if op == 0xfa { Instruction::Ld(LdType::AFromMem(imm16)) }
            else if op == 0xc3 { Instruction::JpAlways(imm16) }
            else if op == 0xc9 { Instruction::RetAlways }
            else if op == 0xcd { Instruction::CallAlways(imm16) }
            else if op == 0xd9 { Instruction::Reti }
            else if op == 0xe8 { Instruction::AddSP(b1 as i8) }
            else if op == 0xe9 { Instruction::JpHL }
            else if op == 0xf3 { Instruction::Di }
            else if op == 0xfb { Instruction::Ei }
            else if op == 0xf8 { Instruction::Ld(LdType::HLFromSP(b1 as i8)) }
            else { Instruction::Ld(LdType::SPFromHL) }
        )
    }
}

impl R8 {
    pub fn from_bits(v: u8) -> (r: R8)
        requires
            v < 8,
        ensures
            r == r8_of(v),
    {
        match v {
            0 => R8::B,
            1 => R8::C,
            2 => R8::D,
            3 => R8::E,
            4 => R8::H,
            5 => R8::L,
            6 => R8::HLInd,
            _ => R8::A,
        }
    }
}

impl R16 {
    pub fn from_bits(v: u8) -> (r: R16)
        requires
            v < 4,
        ensures
            r == r16_of(v),
            v == 0 ==> r == R16::BC,
            v == 1 ==> r == R16::DE,
            v == 2 ==> r == R16::HL,
            v == 3 ==> r == R16::SP,
    {
        match v {
            0 => R16::BC,
            1 => R16::DE,
            2 => R16::HL,
            _ => R16::SP,
        }
    }
}

impl Indirect {
    pub fn from_bits(v: u8) -> (r: Indirect)
        requires
            v < 4,
        ensures
            r == ind_of(v),
            v == 0 ==> r == Indirect::BC,
            v == 1 ==> r == Indirect::DE,
            v == 2 ==> r == Indirect::HLInc,
            v == 3 ==> r == Indirect::HLDec,
    {
        match v {
            0 => Indirect::BC,
            1 => Indirect::DE,
            2 => Indirect::HLInc,
            _ => Indirect::HLDec,
        }
    }
}

impl BranchCond {
    pub fn from_bits(v: u8) -> (r: BranchCond)
        requires
            v < 4,
        ensures
            r == cond_of(v),
            v == 0 ==> r == BranchCond::NZ,
            v == 1 ==> r == BranchCond::Z,
            v == 2 ==> r == BranchCond::NC,
            v == 3 ==> r == BranchCond::C,
    {
        match v {
            0 => BranchCond::NZ,
            1 => BranchCond::Z,
            2 => BranchCond::NC,
            _ => BranchCond::C,
        }
    }
}

impl PushPop {
    pub fn from_bits(v: u8) -> (r: PushPop)
        requires
            v < 4,
        ensures
            r == push_pop_of(v),
            v == 0 ==> r == PushPop::BC,
            v == 1 ==> r == PushPop::DE,
            v == 2 ==> r == PushPop::HL,
            v == 3 ==> r == PushPop::AF,
    {
        match v {
            0 => PushPop::BC,
            1 => PushPop::DE,
            2 => PushPop::HL,
            _ => PushPop::AF,
        }
    }
}

impl BitPos {
    pub open spec fn spec_index(self) -> u8 {
        match self {
            BitPos::Zero => 0,
            BitPos::One => 1,
            BitPos::Two => 2,
            BitPos::Three => 3,
            BitPos::Four => 4,
            BitPos::Five => 5,
            BitPos::Six => 6,
            BitPos::Seven => 7,
        }
    }

    pub fn from_bits(v: u8) -> (r: BitPos)
        requires
            v < 8,
        ensures
            r == bitpos_of(v),
            r.spec_index() == v,
    {
        match v {
            0 => BitPos::Zero,
            1 => BitPos::One,
            2 => BitPos::Two,
            3 => BitPos::Three,
            4 => BitPos::Four,
            5 => BitPos::Five,
            6 => BitPos::Six,
            _ => BitPos::Seven,
        }
    }

    pub fn index(self) -> (r: u8)
        ensures
            r == self.spec_index(),
            r < 8,
    {
        match self {
            BitPos::Zero => 0,
            BitPos::One => 1,
            BitPos::Two => 2,
            BitPos::Three => 3,
            BitPos::Four => 4,
            BitPos::Five => 5,
            BitPos::Six => 6,
            BitPos::Seven => 7,
        }
    }
}

impl Instruction {
    pub open spec fn spec_length(self) -> int {
        match self {
            Instruction::Nop => 1,
            Instruction::Ld(ld) => match ld {
                LdType::R8(_, _) => 1,
                LdType::R8Imm(_, _) => 2,
                LdType::R16Imm(_, _) => 3,
                LdType::AFromInd(_) => 1,
                LdType::IndFromA(_) => 1,
                LdType::AFromIoReg(io) => match io {
                    Io::C => 1,
                    Io::Imm(_) => 2,
                },
                LdType::IoRegFromA(io) => match io {
                    Io::C => 1,
                    Io::Imm(_) => 2,
                },
                LdType::AFromMem(_) => 3,
                LdType::MemFromA(_) => 3,
                LdType::StoreSP(_) => 3,
                LdType::HLFromSP(_) => 2,
                LdType::SPFromHL => 1,
            },
            Instruction::Add(src) | Instruction::Adc(src) | Instruction::Sub(src)
            | Instruction::Sbc(src) | Instruction::And(src) | Instruction::Xor(src)
            | Instruction::Or(src) | Instruction::Cp(src) => match src {
                AluSrc::R8(_) => 1,
                AluSrc::Imm(_) => 2,
            },
            Instruction::AddSP(_) => 2,
            Instruction::Rlc(_) | Instruction::Rrc(_) | Instruction::Rl(_) | Instruction::Rr(_)
            | Instruction::Sla(_) | Instruction::Sra(_) | Instruction::Swap(_)
            | Instruction::Srl(_) | Instruction::Bit(_, _) | Instruction::Res(_, _)
            | Instruction::SetBit(_, _) => 2,
            Instruction::Jr(_, _) | Instruction::JrAlways(_) => 2,
            Instruction::Jp(_, _) | Instruction::JpAlways(_) => 3,
            Instruction::Call(_, _) | Instruction::CallAlways(_) => 3,
            _ => 1,
        }
    }

    /// The instruction's length in bytes.
    pub fn length(self) -> (r: usize)
        ensures
            r == self.spec_length(),
            1 <= r <= 3,
    {
        match self {
            Instruction::Nop => 1,
            Instruction::Ld(ld) => match ld {
                LdType::R8(_, _) => 1,
                LdType::R8Imm(_, _) => 2,
                LdType::R16Imm(_, _) => 3,
                LdType::AFromInd(_) => 1,
                LdType::IndFromA(_) => 1,
                LdType::AFromIoReg(io) => match io {
                    Io::C => 1,
                    Io::Imm(_) => 2,
                },
                LdType::IoRegFromA(io) => match io {
                    Io::C => 1,
                    Io::Imm(_) => 2,
                },
                LdType::AFromMem(_) => 3,
                LdType::MemFromA(_) => 3,
                LdType::StoreSP(_) => 3,
                LdType::HLFromSP(_) => 2,
                LdType::SPFromHL => 1,
            },
            Instruction::Add(src) | Instruction::Adc(src) | Instruction::Sub(src)
            | Instruction::Sbc(src) | Instruction::And(src) | Instruction::Xor(src)
            | Instruction::Or(src) | Instruction::Cp(src) => match src {
                AluSrc::R8(_) => 1,
                AluSrc::Imm(_) => 2,
            },
            Instruction::AddSP(_) => 2,
            Instruction::Rlc(_) | Instruction::Rrc(_) | Instruction::Rl(_) | Instruction::Rr(_)
            | Instruction::Sla(_) | Instruction::Sra(_) | Instruction::Swap(_)
            | Instruction::Srl(_) | Instruction::Bit(_, _) | Instruction::Res(_, _)
            | Instruction::SetBit(_, _) => 2,
            Instruction::Jr(_, _) | Instruction::JrAlways(_) => 2,
            Instruction::Jp(_, _) | Instruction::JpAlways(_) => 3,
            Instruction::Call(_, _) | Instruction::CallAlways(_) => 3,
            _ => 1,
        }
    }

    pub open spec fn spec_mcycles(self) -> CycleCount {
        match self {
            Instruction::Ld(ld) => CycleCount::Const(
                match ld {
                    LdType::R8(dest, src) => if dest == R8::HLInd || src == R8::HLInd {
                        2
                    } else {
                        1
                    },
                    LdType::R8Imm(dest, _) => if dest == R8::HLInd {
                        3
                    } else {
                        2
                    },
                    LdType::R16Imm(_, _) => 3,
                    LdType::AFromInd(_) | LdType::IndFromA(_) => 2,
                    LdType::AFromIoReg(io) | LdType::IoRegFromA(io) => match io {
                        Io::C => 2,
                        Io::Imm(_) => 3,
                    },
                    LdType::AFromMem(_) | LdType::MemFromA(_) => 4,
                    LdType::StoreSP(_) => 5,
                    LdType::HLFromSP(_) => 3,
                    LdType::SPFromHL => 2,
                },
            ),
            Instruction::Add(src) | Instruction::Adc(src) | Instruction::Sub(src)
            | Instruction::Sbc(src) | Instruction::And(src) | Instruction::Xor(src)
            | Instruction::Or(src) | Instruction::Cp(src) => CycleCount::Const(
                match src {
                    AluSrc::R8(r) => if r == R8::HLInd {
                        2
                    } else {
                        1
                    },
                    AluSrc::Imm(_) => 2,
                },
            ),
            Instruction::IncR8(r) | Instruction::DecR8(r) => CycleCount::Const(
                if r == R8::HLInd {
                    3
                } else {
                    1
                },
            ),
            Instruction::IncR16(_) | Instruction::DecR16(_) | Instruction::AddHL(_) => CycleCount::Const(2),
            Instruction::AddSP(_) => CycleCount::Const(4),
            Instruction::Rlc(r) | Instruction::Rrc(r) | Instruction::Rl(r) | Instruction::Rr(r)
            | Instruction::Sla(r) | Instruction::Sra(r) | Instruction::Swap(r)
            | Instruction::Srl(r) | Instruction::Res(_, r) | Instruction::SetBit(_, r) => CycleCount::Const(
                if r == R8::HLInd {
                    4
                } else {
                    2
                },
            ),
            Instruction::Bit(_, r) => CycleCount::Const(
                if r == R8::HLInd {
                    3
                } else {
                    2
                },
            ),
            Instruction::Jr(_, _) => CycleCount::Branch(2, 3),
            Instruction::JrAlways(_) => CycleCount::Const(3),
            Instruction::Jp(_, _) => CycleCount::Branch(3, 4),
            Instruction::JpAlways(_) => CycleCount::Const(4),
            Instruction::Call(_, _) => CycleCount::Branch(3, 6),
            Instruction::CallAlways(_) => CycleCount::Const(6),
            Instruction::Ret(_) => CycleCount::Branch(2, 5),
            Instruction::RetAlways | Instruction::Rst(_) | Instruction::Reti
            | Instruction::Push(_) => CycleCount::Const(4),
            Instruction::Pop(_) => CycleCount::Const(3),
            _ => CycleCount::Const(1),
        }
    }

    /// The instruction's duration in machine cycles.
    pub fn mcycles(self) -> (r: CycleCount)
        ensures
            r == self.spec_mcycles(),
    {
        match self {
            Instruction::Ld(ld) => CycleCount::Const(
                match ld {
                    LdType::R8(dest, src) => if dest == R8::HLInd || src == R8::HLInd {
                        2
                    } else {
                        1
                    },
                    LdType::R8Imm(dest, _) => if dest == R8::HLInd {
                        3
                    } else {
                        2
                    },
                    LdType::R16Imm(_, _) => 3,
                    LdType::AFromInd(_) | LdType::IndFromA(_) => 2,
                    LdType::AFromIoReg(io) | LdType::IoRegFromA(io) => match io {
                        Io::C => 2,
                        Io::Imm(_) => 3,
                    },
                    LdType::AFromMem(_) | LdType::MemFromA(_) => 4,
                    LdType::StoreSP(_) => 5,
                    LdType::HLFromSP(_) => 3,
                    LdType::SPFromHL => 2,
                },
            ),
            Instruction::Add(src) | Instruction::Adc(src) | Instruction::Sub(src)
            | Instruction::Sbc(src) | Instruction::And(src) | Instruction::Xor(src)
            | Instruction::Or(src) | Instruction::Cp(src) => CycleCount::Const(
                match src {
                    AluSrc::R8(r) => if r == R8::HLInd {
                        2
                    } else {
                        1
                    },
                    AluSrc::Imm(_) => 2,
                },
            ),
            Instruction::IncR8(r) | Instruction::DecR8(r) => CycleCount::Const(
                if r == R8::HLInd {
                    3
                } else {
                    1
                },
            ),
            Instruction::IncR16(_) | Instruction::DecR16(_) | Instruction::AddHL(_) => CycleCount::Const(2),
            Instruction::AddSP(_) => CycleCount::Const(4),
            Instruction::Rlc(r) | Instruction::Rrc(r) | Instruction::Rl(r) | Instruction::Rr(r)
            | Instruction::Sla(r) | Instruction::Sra(r) | Instruction::Swap(r)
            | Instruction::Srl(r) | Instruction::Res(_, r) | Instruction::SetBit(_, r) => CycleCount::Const(
                if r == R8::HLInd {
                    4
                } else {
                    2
                },
            ),
            Instruction::Bit(_, r) => CycleCount::Const(
                if r == R8::HLInd {
                    3
                } else {
                    2
                },
            ),
            Instruction::Jr(_, _) => CycleCount::Branch(2, 3),
            Instruction::JrAlways(_) => CycleCount::Const(3),
            Instruction::Jp(_, _) => CycleCount::Branch(3, 4),
            Instruction::JpAlways(_) => CycleCount::Const(4),
            Instruction::Call(_, _) => CycleCount::Branch(3, 6),
            Instruction::CallAlways(_) => CycleCount::Const(6),
            Instruction::Ret(_) => CycleCount::Branch(2, 5),
            Instruction::RetAlways | Instruction::Rst(_) | Instruction::Reti
            | Instruction::Push(_) => CycleCount::Const(4),
            Instruction::Pop(_) => CycleCount::Const(3),
            _ => CycleCount::Const(1),
        }
    }
}

/// The arithmetic-logic instruction that bits 3 to 5 of `op` select.
fn decode_alu_instr(op: u8, src: AluSrc) -> (r: Instruction)
    ensures
        r == alu_of((op / 8) % 8, src),
        r.spec_length() == match src {
            AluSrc::R8(_) => 1int,
            AluSrc::Imm(_) => 2int,
        },
{
    match (op / 8) % 8 {
        0 => Instruction::Add(src),
        1 => Instruction::Adc(src),
        2 => Instruction::Sub(src),
        3 => Instruction::Sbc(src),
        4 => Instruction::And(src),
        5 => Instruction::Xor(src),
        6 => Instruction::Or(src),
        _ => Instruction::Cp(src),
    }
}

/// The arithmetic-logic instruction of kind `k` (bits 3-5 of its opcode).
pub open spec fn alu_of(k: u8, src: AluSrc) -> Instruction {
    if k == 0 { Instruction::Add(src) }
    else if k == 1 { Instruction::Adc(src) }
    else if k == 2 { Instruction::Sub(src) }
    else if k == 3 { Instruction::Sbc(src) }
    else if k == 4 { Instruction::And(src) }
    else if k == 5 { Instruction::Xor(src) }
    else if k == 6 { Instruction::Or(src) }
    else { Instruction::Cp(src) }
}

/// Decodes the instruction that starts with opcode `op`, followed in memory by
/// `b1` and `b2` (read only where the instruction has operands). Returns
/// `None` exactly for the opcodes that have no instruction; otherwise the
/// instruction's length is the opcode's documented length.
#[verifier::rlimit(80)]
pub fn decode(op: u8, b1: u8, b2: u8) -> (r: Option<Instruction>)
    ensures
        r == spec_decode(op, b1, b2),
        r is None <==> is_illegal_opcode(op),
        r matches Some(i) ==> i.spec_length() == opcode_length(op),
        (0x40 <= op < 0x80 && op != 0x76) ==> r == Some(
            Instruction::Ld(LdType::R8(r8_of((op / 8) % 8), r8_of(op % 8))),
        ),
        op == 0x76 ==> r == Some(Instruction::Halt),
        0x80 <= op < 0xc0 ==> r == Some(alu_of((op / 8) % 8, AluSrc::R8(r8_of(op % 8)))),
        (op >= 0xc0 && op % 8 == 6) ==> r == Some(alu_of((op / 8) % 8, AluSrc::Imm(b1))),
        op == 0xc3 ==> r == Some(Instruction::JpAlways((b2 * 256 + b1) as u16)),
        op == 0xcd ==> r == Some(Instruction::CallAlways((b2 * 256 + b1) as u16)),
        (op >= 0xc0 && op % 8 == 7) ==> r == Some(Instruction::Rst(((op / 8) % 8 * 8) as u8)),
        op == 0xcb && b1 >= 0x40 && b1 < 0x80 ==> r == Some(
            Instruction::Bit(bitpos_of((b1 / 8) % 8), r8_of(b1 % 8)),
        ),
        op == 0xcb && b1 >= 0x80 && b1 < 0xc0 ==> r == Some(
            Instruction::Res(bitpos_of((b1 / 8) % 8), r8_of(b1 % 8)),
        ),
        op == 0xcb && b1 >= 0xc0 ==> r == Some(
            Instruction::SetBit(bitpos_of((b1 / 8) % 8), r8_of(b1 % 8)),
        ),
{
    let lo3 = op % 8;
    let hi3 = (op / 8) % 8;
    let hi2 = hi3 / 2;
    let imm16: u16 = b2 as u16 * 256 + b1 as u16;
    let r8_lo = R8::from_bits(lo3);
    let r8_hi = R8::from_bits(hi3);
    let r16 = R16::from_bits(hi2);
    let ind = Indirect::from_bits(hi2);
    let branch = BranchCond::from_bits(hi3 % 4);
    let push_pop = PushPop::from_bits(hi2);
    let instr = match op {
        0x00 => Instruction::Nop,
        0x01 | 0x11 | 0x21 | 0x31 => Instruction::Ld(LdType::R16Imm(r16, imm16)),
        0x02 | 0x12 | 0x22 | 0x32 => Instruction::Ld(LdType::IndFromA(ind)),
        0x03 | 0x13 | 0x23 | 0x33 => Instruction::IncR16(r16),
        0x04 | 0x14 | 0x24 | 0x34 | 0x0c | 0x1c | 0x2c | 0x3c => Instruction::IncR8(r8_hi),
        0x05 | 0x15 | 0x25 | 0x35 | 0x0d | 0x1d | 0x2d | 0x3d => Instruction::DecR8(r8_hi),
        0x06 | 0x16 | 0x26 | 0x36 | 0x0e | 0x1e | 0x2e | 0x3e => Instruction::Ld(
            LdType::R8Imm(r8_hi, b1),
        ),
        0x08 => Instruction::Ld(LdType::StoreSP(imm16)),
        0x09 | 0x19 | 0x29 | 0x39 => Instruction::AddHL(r16),
        0x0a | 0x1a | 0x2a | 0x3a => Instruction::Ld(LdType::AFromInd(ind)),
        0x0b | 0x1b | 0x2b | 0x3b => Instruction::DecR16(r16),
        0x20 | 0x28 | 0x30 | 0x38 => Instruction::Jr(branch, b1 as i8),
        0x76 => Instruction::Halt,
        0x40..=0x7f => Instruction::Ld(LdType::R8(r8_hi, r8_lo)),
        0x80..=0xbf => decode_alu_instr(op, AluSrc::R8(r8_lo)),
        0xc0 | 0xd0 | 0xc8 | 0xd8 => Instruction::Ret(branch),
        0xc1 | 0xd1 | 0xe1 | 0xf1 => Instruction::Pop(push_pop),
        0xc2 | 0xd2 | 0xca | 0xda => Instruction::Jp(branch, imm16),
        0xc4 | 0xd4 | 0xcc | 0xdc => Instruction::Call(branch, imm16),
        0xc5 | 0xd5 | 0xe5 | 0xf5 => Instruction::Push(push_pop),
        0xc6 | 0xd6 | 0xe6 | 0xf6 | 0xce | 0xde | 0xee | 0xfe => decode_alu_instr(
            op,
            AluSrc::Imm(b1),
        ),
        0xc7 | 0xd7 | 0xe7 | 0xf7 | 0xcf | 0xdf | 0xef | 0xff => Instruction::Rst(hi3 * 8),
        0xcb => {
            let bit = BitPos::from_bits((b1 / 8) % 8);
            let r8 = R8::from_bits(b1 % 8);
            match b1 {
                0x00..=0x07 => Instruction::Rlc(r8),
                0x08..=0x0f => Instruction::Rrc(r8),
                0x10..=0x17 => Instruction::Rl(r8),
                0x18..=0x1f => Instruction::Rr(r8),
                0x20..=0x27 => Instruction::Sla(r8),
                0x28..=0x2f => Instruction::Sra(r8),
                0x30..=0x37 => Instruction::Swap(r8),
                0x38..=0x3f => Instruction::Srl(r8),
                0x40..=0x7f => Instruction::Bit(bit, r8),
                0x80..=0xbf => Instruction::Res(bit, r8),
                _ => Instruction::SetBit(bit, r8),
            }
        },
        0xe0 => Instruction::Ld(LdType::IoRegFromA(Io::Imm(b1))),
        0xe2 => Instruction::Ld(LdType::IoRegFromA(Io::C)),
        0xea => Instruction::Ld(LdType::MemFromA(imm16)),
        0xf0 => Instruction::Ld(LdType::AFromIoReg(Io::Imm(b1))),
        0xf2 => Instruction::Ld(LdType::AFromIoReg(Io::C)),
        0xfa => Instruction::Ld(LdType::AFromMem(imm16)),
        0x07 => Instruction::Rlca,
        0x0f => Instruction::Rrca,
        0x10 => Instruction::Stop,
        0x17 => Instruction::Rla,
        0x18 => Instruction::JrAlways(b1 as i8),
        0x1f => Instruction::Rra,
        0x27 => Instruction::Daa,
        0x2f => Instruction::Cpl,
        0x37 => Instruction::Scf,
        0x3f => Instruction::Ccf,
        0xc3 => Instruction::JpAlways(imm16),
        0xc9 => Instruction::RetAlways,
        0xcd => Instruction::CallAlways(imm16),
        0xd9 => Instruction::Reti,
        0xe8 => Instruction::AddSP(b1 as i8),
        0xe9 => Instruction::JpHL,
        0xf3 => Instruction::Di,
        0xfb => Instruction::Ei,
        0xf8 => Instruction::Ld(LdType::HLFromSP(b1 as i8)),
        0xf9 => Instruction::Ld(LdType::SPFromHL),
        _ => {
            return None;
        },
    };
    Some(instr)
}

} // verus!
