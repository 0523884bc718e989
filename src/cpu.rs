//! The processor: registers, instruction decoding, arithmetic and execution.
use vstd::prelude::*;

pub mod alu;
pub mod instruction;
pub mod registers;

use crate::bus::cartridge::Cartridge;
use crate::bus::joypad::Joypad;
use crate::bus::{source_mask, MemoryBus};
use crate::ppu::Ppu;
use alu::{
    adc8, daa8, daa_spec, offset_byte, half_carry_add16, half_borrow_sub8, half_carry_add8, half_overflowing_add16, half_overflowing_add8,
    half_overflowing_add_signed16, half_overflowing_sub8, rl8, rlc8, rr8, rrc8, sbc8, sla8, sra8,
    srl8, swap8,
};
use instruction::{
    decode, spec_decode, AluSrc, BranchCond, CycleCount, Indirect, Instruction, Io, LdType, PushPop, R16,
    R8,
};
use registers::{Flags, Reg16, Reg8, RegWrite, Registers};

verus! {

/// Why the processor stopped.
#[derive(Copy, Clone, PartialEq, Eq, Structural, Debug)]
pub enum CpuError {
    /// An opcode with no instruction was fetched at `pc`.
    IllegalOpcode { pc: u16, opcode: u8 },
    /// STOP was executed at `pc`; it is not emulated.
    Stop { pc: u16 },
    /// The boot ROM is not 256 bytes long.
    BootRomSize(usize),
    /// No frame completed within the run's bound.
    FrameTimeout,
}

/// Memory operands addressed by a register pair.
#[derive(Copy, Clone, PartialEq, Eq, Structural)]
pub enum MemIndirect {
    BC,
    DE,
    HL,
    HLInc,
    HLDec,
}

impl MemIndirect {
    pub fn from_indirect(ind: Indirect) -> (r: MemIndirect)
        ensures
            ind == Indirect::BC ==> r == MemIndirect::BC,
            ind == Indirect::DE ==> r == MemIndirect::DE,
            ind == Indirect::HLInc ==> r == MemIndirect::HLInc,
            ind == Indirect::HLDec ==> r == MemIndirect::HLDec,
    {
        match ind {
            Indirect::BC => MemIndirect::BC,
            Indirect::DE => MemIndirect::DE,
            Indirect::HLInc => MemIndirect::HLInc,
            Indirect::HLDec => MemIndirect::HLDec,
        }
    }
}

/// The memory operand an indirect load names.
pub open spec fn mem_ind_of(ind: Indirect) -> MemIndirect {
    match ind {
        Indirect::BC => MemIndirect::BC,
        Indirect::DE => MemIndirect::DE,
        Indirect::HLInc => MemIndirect::HLInc,
        Indirect::HLDec => MemIndirect::HLDec,
    }
}

/// Whether a branch condition holds under the flags.
pub open spec fn cond_holds(f: Flags, cond: BranchCond) -> bool {
    match cond {
        BranchCond::NZ => !f.z,
        BranchCond::Z => f.z,
        BranchCond::NC => !f.c,
        BranchCond::C => f.c,
    }
}

/// The instructions that write the program counter.
pub open spec fn is_control(i: Instruction) -> bool {
    match i {
        Instruction::Jr(_, _) | Instruction::JrAlways(_) | Instruction::Jp(_, _)
        | Instruction::JpAlways(_) | Instruction::Call(_, _) | Instruction::CallAlways(_)
        | Instruction::Ret(_) | Instruction::RetAlways | Instruction::Rst(_) | Instruction::Reti
        | Instruction::JpHL => true,
        _ => false,
    }
}

/// The conditional instructions and their condition.
pub open spec fn branch_cond(i: Instruction) -> Option<BranchCond> {
    match i {
        Instruction::Jr(c, _) | Instruction::Jp(c, _) | Instruction::Call(c, _)
        | Instruction::Ret(c) => Some(c),
        _ => None,
    }
}

/// The pending enabled interrupts: IF & IE, low five bits.
pub open spec fn pending(m: &MemoryBus) -> u8 {
    m.int_flag & m.int_enable & 0x1f
}

/// The lowest set bit of `p` below 5 (5 when none).
pub open spec fn lowest_pending(p: u8) -> u8 {
    if p & 1 != 0 { 0 }
    else if p & 2 != 0 { 1 }
    else if p & 4 != 0 { 2 }
    else if p & 8 != 0 { 3 }
    else if p & 16 != 0 { 4 }
    else { 5 }
}

/// The new value of a flag, or the old one.
pub open spec fn pick(o: Option<bool>, d: bool) -> bool {
    match o {
        Some(v) => v,
        None => d,
    }
}

fn pick_flag(o: Option<bool>, d: bool) -> (r: bool)
    ensures
        r == pick(o, d),
{
    match o {
        Some(v) => v,
        None => d,
    }
}

/// The registers with byte operand `r` (not `HLInd`) set to `v`.
pub open spec fn with_r8(regs: Registers, r: R8, v: u8) -> Registers {
    match r {
        R8::A => Registers { a: v, ..regs },
        R8::B => Registers { b: v, ..regs },
        R8::C => Registers { c: v, ..regs },
        R8::D => Registers { d: v, ..regs },
        R8::E => Registers { e: v, ..regs },
        R8::H => Registers { h: v, ..regs },
        R8::L => Registers { l: v, ..regs },
        R8::HLInd => regs,
    }
}

/// A flag set from its four values.
pub open spec fn flags_of(z: bool, n: bool, h: bool, c: bool) -> Flags {
    Flags { z, n, h, c }
}

pub struct Cpu {
    pub registers: Registers,
    pub memory: MemoryBus,
    /// Machine cycles run since power-on.
    pub cycles: u64,
    /// The interrupt master enable.
    pub ime: bool,
    /// EI was executed: IME turns on after the next instruction.
    pub ime_pending: bool,
    pub halted: bool,
}

impl Cpu {
    pub open spec fn wf(&self) -> bool {
        self.memory.wf()
    }

    pub open spec fn spec_hl(&self) -> u16 {
        self.registers.spec_reg16(Reg16::HL) as u16
    }

    /// The value of a byte operand.
    pub open spec fn spec_r8(&self, r: R8) -> u8 {
        match r {
            R8::A => self.registers.a,
            R8::B => self.registers.b,
            R8::C => self.registers.c,
            R8::D => self.registers.d,
            R8::E => self.registers.e,
            R8::H => self.registers.h,
            R8::L => self.registers.l,
            R8::HLInd => self.memory.spec_read(self.spec_hl()),
        }
    }

    pub open spec fn alu_operand(&self, src: AluSrc) -> u8 {
        match src {
            AluSrc::R8(r) => self.spec_r8(r),
            AluSrc::Imm(v) => v,
        }
    }

    /// The register A and flags that an arithmetic-logic instruction leaves.
    pub open spec fn alu_result(&self, i: Instruction) -> (u8, Flags) {
        let a = self.registers.a;
        let f = self.registers.flags;
        let cin: int = if f.c { 1 } else { 0 };
        match i {
            Instruction::Add(src) => {
                let v = self.alu_operand(src);
                let r = ((a + v) % 256) as u8;
                (r, flags_of(r == 0, false, half_carry_add8(a, v), a + v > 255))
            },
            Instruction::Adc(src) => {
                let v = self.alu_operand(src);
                let r = ((a + v + cin) % 256) as u8;
                (r, flags_of(r == 0, false, a % 16 + v % 16 + cin > 15, a + v + cin > 255))
            },
            Instruction::Sub(src) => {
                let v = self.alu_operand(src);
                let r = ((a - v + 256) % 256) as u8;
                (r, flags_of(r == 0, true, half_borrow_sub8(a, v), a < v))
            },
            Instruction::Sbc(src) => {
                let v = self.alu_operand(src);
                let r = ((a - v - cin + 512) % 256) as u8;
                (r, flags_of(r == 0, true, a % 16 < v % 16 + cin, a < v + cin))
            },
            Instruction::And(src) => {
                let r = a & self.alu_operand(src);
                (r, flags_of(r == 0, false, true, false))
            },
            Instruction::Xor(src) => {
                let r = a ^ self.alu_operand(src);
                (r, flags_of(r == 0, false, false, false))
            },
            Instruction::Or(src) => {
                let r = a | self.alu_operand(src);
                (r, flags_of(r == 0, false, false, false))
            },
            Instruction::Cp(src) => {
                let v = self.alu_operand(src);
                (a, flags_of((a - v + 256) % 256 == 0, true, half_borrow_sub8(a, v), a < v))
            },
            _ => (a, f),
        }
    }

    pub open spec fn is_alu(i: Instruction) -> bool {
        match i {
            Instruction::Add(_) | Instruction::Adc(_) | Instruction::Sub(_) | Instruction::Sbc(_)
            | Instruction::And(_) | Instruction::Xor(_) | Instruction::Or(_) | Instruction::Cp(_) => true,
            _ => false,
        }
    }

    /// A sixteen-bit operand.
    pub open spec fn spec_r16(&self, r: R16) -> int {
        match r {
            R16::BC => self.registers.spec_reg16(Reg16::BC),
            R16::DE => self.registers.spec_reg16(Reg16::DE),
            R16::HL => self.registers.spec_reg16(Reg16::HL),
            R16::SP => self.registers.sp as int,
        }
    }

    /// The address an indirect operand reaches.
    pub open spec fn ind_addr(&self, ind: MemIndirect) -> u16 {
        match ind {
            MemIndirect::BC => self.registers.spec_reg16(Reg16::BC) as u16,
            MemIndirect::DE => self.registers.spec_reg16(Reg16::DE) as u16,
            _ => self.spec_hl(),
        }
    }

    /// The registers after an indirect access: HL steps for HL+ and HL-.
    pub open spec fn ind_step(&self, ind: MemIndirect) -> Registers {
        let hl = self.spec_hl() as int;
        match ind {
            MemIndirect::HLInc => Registers {
                h: (((hl + 1) % 65536) / 256) as u8,
                l: (((hl + 1) % 65536) % 256) as u8,
                ..self.registers
            },
            MemIndirect::HLDec => Registers {
                h: (((hl + 65535) % 65536) / 256) as u8,
                l: (((hl + 65535) % 65536) % 256) as u8,
                ..self.registers
            },
            _ => self.registers,
        }
    }

    /// The I/O address 0xFF00 + C or 0xFF00 + an immediate.
    pub open spec fn spec_io_addr(&self, io: Io) -> u16 {
        match io {
            Io::C => (0xff00 + self.registers.c) as u16,
            Io::Imm(v) => (0xff00 + v) as u16,
        }
    }

    /// The value of the pair a stack instruction moves.
    pub open spec fn spec_pair(&self, pp: PushPop) -> int {
        match pp {
            PushPop::BC => self.registers.spec_reg16(Reg16::BC),
            PushPop::DE => self.registers.spec_reg16(Reg16::DE),
            PushPop::HL => self.registers.spec_reg16(Reg16::HL),
            PushPop::AF => self.registers.spec_reg16(Reg16::AF),
        }
    }

    /// `self` is `pre` after instruction `instr` (neither a jump nor an
    /// arithmetic-logic one) as far as memory goes: the byte written through
    /// (HL) or another address, or the word pushed.
    pub open spec fn mem_done(&self, pre: &Cpu, instr: Instruction) -> bool {
        let a = pre.registers.a;
        let sp = pre.registers.sp;
        let hl = pre.spec_hl();
        match instr {
            Instruction::IncR8(R8::HLInd) => self.memory.stored(&pre.memory, hl, ((pre.spec_r8(R8::HLInd) + 1) % 256) as u8),
            Instruction::DecR8(R8::HLInd) => self.memory.stored(&pre.memory, hl, ((pre.spec_r8(R8::HLInd) + 255) % 256) as u8),
            Instruction::Rlc(r) | Instruction::Rrc(r) | Instruction::Rl(r) | Instruction::Rr(r)
            | Instruction::Sla(r) | Instruction::Sra(r) | Instruction::Swap(r) | Instruction::Srl(r)
            | Instruction::Res(_, r) | Instruction::SetBit(_, r) => r == R8::HLInd ==> self.memory.stored(
                &pre.memory,
                hl,
                shift_spec(instr, pre.spec_r8(r), pre.registers.flags.c).1,
            ),
            Instruction::Push(pp) => self.memory.pushed(&pre.memory, sp, pre.spec_pair(pp) as u16),
            Instruction::Ld(ld) => match ld {
                LdType::R8(d, src) => d == R8::HLInd ==> self.memory.stored(&pre.memory, hl, pre.spec_r8(src)),
                LdType::R8Imm(d, v) => d == R8::HLInd ==> self.memory.stored(&pre.memory, hl, v),
                LdType::IndFromA(ind) => self.memory.stored(&pre.memory, pre.ind_addr(mem_ind_of(ind)), a),
                LdType::IoRegFromA(io) => self.memory.stored(&pre.memory, pre.spec_io_addr(io), a),
                LdType::MemFromA(addr) => self.memory.stored(&pre.memory, addr, a),
                LdType::StoreSP(addr) => exists|mid: MemoryBus|
                    #[trigger] mid.stored(&pre.memory, addr, (sp % 256) as u8) && self.memory.stored(
                        &mid,
                        ((addr + 1) % 65536) as u16,
                        (sp / 256) as u8,
                    ),
                _ => true,
            },
            _ => true,
        }
    }

    /// The word at SP, low byte first.
    pub open spec fn stack_word(&self) -> int {
        self.memory.spec_read(self.registers.sp) + 256 * self.memory.spec_read(
            ((self.registers.sp + 1) % 65536) as u16,
        )
    }

    /// The registers after a shift, rotate or bit instruction on operand `r`.
    pub open spec fn shifted(&self, instr: Instruction, r: R8) -> Registers {
        let (w, res, z, n, h, c) = shift_spec(instr, self.spec_r8(r), self.registers.flags.c);
        let f = self.registers.flags;
        let flags = Flags { z: pick(z, f.z), n: pick(n, f.n), h: pick(h, f.h), c: pick(c, f.c) };
        let regs = if w && r != R8::HLInd { with_r8(self.registers, r, res) } else { self.registers };
        Registers { flags, ..regs }
    }

    /// The registers after INC (`inc`) or DEC of byte operand `r`: Z, N and
    /// H from the result, C kept.
    pub open spec fn stepped8(&self, r: R8, inc: bool) -> Registers {
        let v = self.spec_r8(r);
        let res = (if inc { (v + 1) % 256 } else { (v - 1 + 256) % 256 }) as u8;
        let flags = Flags {
            z: res == 0,
            n: !inc,
            h: if inc { half_carry_add8(v, 1) } else { half_borrow_sub8(v, 1) },
            c: self.registers.flags.c,
        };
        let regs = if r != R8::HLInd { with_r8(self.registers, r, res) } else { self.registers };
        Registers { flags, ..regs }
    }

    /// `self` is `pre` after an instruction that is neither a jump nor an
    /// arithmetic-logic one, as far as the registers go.
    pub open spec fn misc_done(&self, pre: &Cpu, instr: Instruction) -> bool {
        let f = pre.registers.flags;
        let a = pre.registers.a;
        let sp = pre.registers.sp;
        match instr {
            Instruction::IncR8(r) => self.registers == pre.stepped8(r, true),
            Instruction::DecR8(r) => self.registers == pre.stepped8(r, false),
            Instruction::Rlc(r) | Instruction::Rrc(r) | Instruction::Rl(r) | Instruction::Rr(r)
            | Instruction::Sla(r) | Instruction::Sra(r) | Instruction::Swap(r) | Instruction::Srl(r)
            | Instruction::Bit(_, r) | Instruction::Res(_, r) | Instruction::SetBit(_, r) => self.registers
                == pre.shifted(instr, r),
            Instruction::AddHL(src) => {
                let v = pre.spec_r16(src);
                let hl = pre.registers.spec_reg16(Reg16::HL);
                &&& self.registers.spec_reg16(Reg16::HL) == (v + hl) % 65536
                &&& self.registers.flags == Flags {
                    z: f.z,
                    n: false,
                    h: half_carry_add16(v as u16, hl as u16),
                    c: v + hl > 65535,
                }
                &&& self.registers.sp == sp && self.registers.a == a
            },
            Instruction::AddSP(off) => self.registers == Registers {
                sp: ((sp + off + 65536) % 65536) as u16,
                flags: Flags {
                    z: false,
                    n: false,
                    h: sp % 16 + offset_byte(off) % 16 > 15,
                    c: sp % 256 + offset_byte(off) > 255,
                },
                ..pre.registers
            },
            Instruction::Rlca => self.registers == Registers {
                a: ((a % 128) * 2 + a / 128) as u8,
                flags: Flags { z: false, n: false, h: false, c: a >= 128 },
                ..pre.registers
            },
            Instruction::Rla => self.registers == Registers {
                a: ((a % 128) * 2 + if f.c { 1int } else { 0 }) as u8,
                flags: Flags { z: false, n: false, h: false, c: a >= 128 },
                ..pre.registers
            },
            Instruction::Rrca => self.registers == Registers {
                a: (a / 2 + (a % 2) * 128) as u8,
                flags: Flags { z: false, n: false, h: false, c: a % 2 == 1 },
                ..pre.registers
            },
            Instruction::Rra => self.registers == Registers {
                a: (a / 2 + if f.c { 128int } else { 0 }) as u8,
                flags: Flags { z: false, n: false, h: false, c: a % 2 == 1 },
                ..pre.registers
            },
            Instruction::Push(_) => self.registers == Registers { sp: ((sp + 65534) % 65536) as u16, ..pre.registers },
            Instruction::Pop(pp) => self.registers.sp == (sp + 2) % 65536 && self.spec_pair(pp) == if pp
                == PushPop::AF {
                pre.stack_word() - pre.stack_word() % 16
            } else {
                pre.stack_word()
            },
            Instruction::IncR16(r) => self.spec_r16(r) == (pre.spec_r16(r) + 1) % 65536,
            Instruction::DecR16(r) => self.spec_r16(r) == (pre.spec_r16(r) + 65535) % 65536,
            Instruction::Scf => self.registers == Registers {
                flags: Flags { z: f.z, n: false, h: false, c: true },
                ..pre.registers
            },
            Instruction::Ccf => self.registers == Registers {
                flags: Flags { z: f.z, n: false, h: false, c: !f.c },
                ..pre.registers
            },
            Instruction::Daa => {
                let (v, c) = daa_spec(a, f.n, f.h, f.c);
                self.registers == Registers { a: v, flags: Flags { z: v == 0, n: f.n, h: false, c }, ..pre.registers }
            },
            Instruction::Cpl => self.registers == Registers {
                a: !a,
                flags: Flags { z: f.z, n: true, h: true, c: f.c },
                ..pre.registers
            },
            Instruction::Ld(ld) => pre.load_done(self, ld),
            _ => true,
        }
    }

    /// `post` is `self` after load `ld`, as far as the registers go.
    pub open spec fn load_done(&self, post: &Cpu, ld: LdType) -> bool {
        let sp = self.registers.sp;
        match ld {
            LdType::R8(d, src) => d != R8::HLInd ==> post.registers == with_r8(self.registers, d, self.spec_r8(src)),
            LdType::R8Imm(d, v) => d != R8::HLInd ==> post.registers == with_r8(self.registers, d, v),
            LdType::AFromMem(addr) => post.registers == Registers { a: self.memory.spec_read(addr), ..self.registers },
            LdType::R16Imm(d, v) => post.spec_r16(d) == v,
            LdType::AFromInd(ind) => post.registers == Registers {
                a: self.memory.spec_read(self.ind_addr(mem_ind_of(ind))),
                ..self.ind_step(mem_ind_of(ind))
            },
            LdType::IndFromA(ind) => post.registers == self.ind_step(mem_ind_of(ind)),
            LdType::AFromIoReg(io) => post.registers == Registers {
                a: self.memory.spec_read(self.spec_io_addr(io)),
                ..self.registers
            },
            LdType::IoRegFromA(_) | LdType::MemFromA(_) | LdType::StoreSP(_) => post.registers == self.registers,
            LdType::SPFromHL => post.registers == Registers {
                sp: self.registers.spec_reg16(Reg16::HL) as u16,
                ..self.registers
            },
            LdType::HLFromSP(off) => {
                &&& post.registers.spec_reg16(Reg16::HL) == (sp + off + 65536) % 65536
                &&& post.registers.flags == Flags {
                    z: false,
                    n: false,
                    h: sp % 16 + offset_byte(off) % 16 > 15,
                    c: sp % 256 + offset_byte(off) > 255,
                }
            },
        }
    }

    /// A processor over `memory`, started as the boot ROM would leave it
    /// when the bus has none: PC 0x0100, AF 0x01B0, BC 0x0013, DE 0x00D8,
    /// HL 0x014D, SP 0xFFFE; with a boot ROM, from address 0.
    pub fn new(bootrom: Option<Vec<u8>>, cartridge: Cartridge) -> (r: Result<Cpu, CpuError>)
        requires
            cartridge.wf(),
        ensures
            (bootrom matches Some(b) && b.len() != 0x100) ==> r == Err::<Cpu, CpuError>(
                CpuError::BootRomSize(bootrom.unwrap().len() as usize),
            ),
            !(bootrom matches Some(b) && b.len() != 0x100) ==> (r matches Ok(c) && c.wf() && !c.ime && !c.halted
                && c.registers.pc == if bootrom is Some { 0u16 } else { 0x100u16 }),
            bootrom is None ==> (r matches Ok(c) && c.registers.a == 0x01 && c.registers.spec_reg16(Reg16::AF) == 0x01b0
                && c.registers.spec_reg16(Reg16::BC) == 0x0013 && c.registers.spec_reg16(Reg16::DE) == 0x00d8
                && c.registers.spec_reg16(Reg16::HL) == 0x014d && c.registers.sp == 0xfffe),
    {
        let has_boot = bootrom.is_some();
        if let Some(b) = &bootrom {
            if b.len() != 0x100 {
                return Err(CpuError::BootRomSize(b.len()));
            }
        }
        let memory = MemoryBus::new(bootrom, cartridge);
        let mut cpu = Cpu {
            registers: Registers::new(),
            memory,
            cycles: 0,
            ime: false,
            ime_pending: false,
            halted: false,
        };
        if !has_boot {
            cpu.registers.write(RegWrite::AF(0x01b0));
            cpu.registers.write(RegWrite::BC(0x0013));
            cpu.registers.write(RegWrite::DE(0x00d8));
            cpu.registers.write(RegWrite::HL(0x014d));
            cpu.registers.write(RegWrite::SP(0xfffe));
            cpu.registers.pc = 0x100;
            cpu.memory.write(0xff26, 0x80);
            cpu.memory.write(0xff24, 0x77);
            cpu.memory.write(0xff25, 0xf3);
            cpu.memory.write(0xff40, 0x91);
            cpu.memory.write(0xff47, 0xfc);
        }
        Ok(cpu)
    }

    /// One machine cycle of the machine around the processor.
    fn mtick(&mut self)
        requires
            old(self).wf(),
        ensures
            final(self).wf(),
            final(self).registers == old(self).registers,
            final(self).ime == old(self).ime && final(self).ime_pending == old(self).ime_pending,
            final(self).halted == old(self).halted,
            final(self).memory.progressed(&old(self).memory),
            final(self).memory.wram == old(self).memory.wram && final(self).memory.hram == old(self).memory.hram,
    {
        self.memory.tick();
        self.cycles = self.cycles.wrapping_add(1);
    }

    fn mticks(&mut self, n: u64)
        requires
            old(self).wf(),
        ensures
            final(self).wf(),
            final(self).registers == old(self).registers,
            final(self).ime == old(self).ime && final(self).ime_pending == old(self).ime_pending,
            final(self).halted == old(self).halted,
            final(self).memory.progressed(&old(self).memory),
            final(self).memory.wram == old(self).memory.wram && final(self).memory.hram == old(self).memory.hram,
    {
        let mut i: u64 = 0;
        while i < n
            invariant
                self.wf(),
                self.registers == old(self).registers,
                self.ime == old(self).ime && self.ime_pending == old(self).ime_pending,
                self.halted == old(self).halted,
                self.memory.progressed(&old(self).memory),
                self.memory.wram == old(self).memory.wram && self.memory.hram == old(self).memory.hram,
            decreases n - i,
        {
            self.mtick();
            i = i + 1;
        }
    }

    #[verifier::rlimit(100)]
    /// Services the lowest pending enabled interrupt when IME is set: a
    /// pending one also ends HALT. Dispatch takes five machine cycles: two
    /// of delay, two that push PC, one that jumps. Returns whether one was
    /// dispatched.
    fn check_for_interrupts(&mut self) -> (r: bool)
        requires
            old(self).wf(),
        ensures
            final(self).wf(),
            final(self).memory.progressed(&old(self).memory),
            r == (old(self).ime && pending(&old(self).memory) != 0),
            pending(&old(self).memory) != 0 ==> !final(self).halted,
            !r ==> *final(self) == (Cpu { halted: final(self).halted, ..*old(self) }),
            pending(&old(self).memory) == 0 ==> *final(self) == *old(self),
            r ==> {
                let i = lowest_pending(pending(&old(self).memory));
                let sp = old(self).registers.sp;
                &&& i < 5
                &&& final(self).registers == (Registers {
                    pc: (0x40 + 8 * i) as u16,
                    sp: ((sp + 65534) % 65536) as u16,
                    ..old(self).registers
                })
                &&& final(self).memory.int_flag & source_mask(i) == 0
                &&& !final(self).ime && !final(self).ime_pending
                &&& (MemoryBus::stack_ram(((sp + 65535) % 65536) as u16) && MemoryBus::stack_ram(
                    ((sp + 65534) % 65536) as u16,
                ) ==> final(self).memory.spec_read(((sp + 65535) % 65536) as u16) == old(self).registers.pc / 256
                    && final(self).memory.spec_read(((sp + 65534) % 65536) as u16) == old(self).registers.pc % 256)
            },
    {
        let pending = self.memory.int_flag & self.memory.int_enable;
        let mut i: u8 = 0;
        while i < 5
            invariant
                self.wf(),
                *self == *old(self),
                pending == old(self).memory.int_flag & old(self).memory.int_enable,
                forall|j: u8| j < i ==> (pending >> j) & 1 == 0,
                lowest_pending(pending & 0x1f) >= i,
            decreases 5 - i,
        {
            if (pending >> i) & 1 == 1 {
                proof {
                    crate::bits::lemma_low5_set(pending, i);
                    crate::bits::lemma_pending_bit(pending, i);
                    crate::bits::lemma_source_masks();
                    assert(lowest_pending(pending & 0x1f) == i);
                }
                self.halted = false;
                if self.ime {
                    self.ime = false;
                    self.ime_pending = false;
                    let pc = self.registers.pc;
                    self.mtick();
                    self.mtick();
                    self.push16(pc);
                    let ghost pushed = self.memory;
                    self.mtick();
                    self.mtick();
                    self.mtick();
                    proof {
                        let sp = old(self).registers.sp;
                        assert(forall|a: u16| MemoryBus::stack_ram(a) ==> #[trigger] self.memory.spec_read(a) == pushed.spec_read(a));
                        crate::bits::lemma_source_masks();
                        crate::bits::lemma_clear_mask(self.memory.int_flag, i);
                    }
                    self.memory.int_flag = self.memory.int_flag & !(1u8 << i);
                    self.registers.pc = 0x40 + 8 * i as u16;
                    return true;
                }
                return false;
            }
            proof {
                crate::bits::lemma_and_one_le(pending >> i);
                crate::bits::lemma_pending_bit(pending, i);
                crate::bits::lemma_source_masks();
            }
            i = i + 1;
        }
        proof {
            crate::bits::lemma_low5_clear(pending);
        }
        false
    }

    /// The byte at PC + `offset`.
    fn arg8(&self, offset: u16) -> (r: u8)
        requires
            self.wf(),
        ensures
            r == self.memory.spec_read(((self.registers.pc + offset) % 65536) as u16),
    {
        self.memory.read(self.registers.pc.wrapping_add(offset))
    }

    pub fn read8(&self, r8: R8) -> (r: u8)
        requires
            self.wf(),
        ensures
            r == self.spec_r8(r8),
    {
        match r8 {
            R8::A => self.registers.reg8(Reg8::A),
            R8::B => self.registers.reg8(Reg8::B),
            R8::C => self.registers.reg8(Reg8::C),
            R8::D => self.registers.reg8(Reg8::D),
            R8::E => self.registers.reg8(Reg8::E),
            R8::H => self.registers.reg8(Reg8::H),
            R8::L => self.registers.reg8(Reg8::L),
            R8::HLInd => self.memory.read(self.registers.reg16(Reg16::HL)),
        }
    }

    #[verifier::rlimit(100)]
    pub fn write8(&mut self, r8: R8, val: u8)
        requires
            old(self).wf(),
        ensures
            final(self).wf(),
            final(self).registers.pc == old(self).registers.pc,
            final(self).registers.flags == old(self).registers.flags,
            final(self).registers.sp == old(self).registers.sp,
            r8 == R8::A ==> final(self).registers == (Registers { a: val, ..old(self).registers }),
            r8 != R8::HLInd ==> final(self).registers == with_r8(old(self).registers, r8, val),
            r8 != R8::HLInd ==> final(self).memory == old(self).memory,
            r8 == R8::HLInd ==> final(self).registers == old(self).registers,
            final(self).ime == old(self).ime && final(self).ime_pending == old(self).ime_pending,
            final(self).halted == old(self).halted,
            final(self).memory.progressed(&old(self).memory),
            r8 == R8::HLInd ==> final(self).memory.stored(&old(self).memory, old(self).spec_hl(), val),
    {
        match r8 {
            R8::A => self.registers.write(RegWrite::A(val)),
            R8::B => self.registers.write(RegWrite::B(val)),
            R8::C => self.registers.write(RegWrite::C(val)),
            R8::D => self.registers.write(RegWrite::D(val)),
            R8::E => self.registers.write(RegWrite::E(val)),
            R8::H => self.registers.write(RegWrite::H(val)),
            R8::L => self.registers.write(RegWrite::L(val)),
            R8::HLInd => {
                let hl = self.registers.reg16(Reg16::HL);
                self.memory.write(hl, val);
            },
        }
    }

    fn read16(&self, r16: R16) -> (r: u16)
        ensures
            r == match r16 {
                R16::BC => self.registers.spec_reg16(Reg16::BC),
                R16::DE => self.registers.spec_reg16(Reg16::DE),
                R16::HL => self.registers.spec_reg16(Reg16::HL),
                R16::SP => self.registers.sp as int,
            },
    {
        match r16 {
            R16::BC => self.registers.reg16(Reg16::BC),
            R16::DE => self.registers.reg16(Reg16::DE),
            R16::HL => self.registers.reg16(Reg16::HL),
            R16::SP => self.registers.reg16(Reg16::SP),
        }
    }

    fn write16(&mut self, r16: R16, val: u16)
        ensures
            final(self).registers.pc == old(self).registers.pc,
            final(self).registers.flags == old(self).registers.flags,
            final(self).memory == old(self).memory,
            final(self).ime == old(self).ime && final(self).ime_pending == old(self).ime_pending,
            final(self).halted == old(self).halted,
            r16 == R16::HL ==> final(self).registers.spec_reg16(Reg16::HL) == val && final(self).registers.sp
                == old(self).registers.sp && final(self).registers.a == old(self).registers.a,
            r16 == R16::SP ==> final(self).registers == (Registers { sp: val, ..old(self).registers }),
            final(self).spec_r16(r16) == val,
    {
        match r16 {
            R16::BC => self.registers.write(RegWrite::BC(val)),
            R16::DE => self.registers.write(RegWrite::DE(val)),
            R16::HL => self.registers.write(RegWrite::HL(val)),
            R16::SP => self.registers.write(RegWrite::SP(val)),
        }
    }

    #[verifier::rlimit(100)]
    fn read_ind(&mut self, ind: MemIndirect) -> (r: u8)
        requires
            old(self).wf(),
        ensures
            final(self).wf(),
            final(self).registers.pc == old(self).registers.pc,
            final(self).registers.flags == old(self).registers.flags,
            final(self).registers.a == old(self).registers.a,
            final(self).memory == old(self).memory,
            final(self).ime == old(self).ime && final(self).ime_pending == old(self).ime_pending,
            final(self).halted == old(self).halted,
            r == old(self).memory.spec_read(old(self).ind_addr(ind)),
            final(self).registers == old(self).ind_step(ind),
    {
        match ind {
            MemIndirect::BC => self.memory.read(self.registers.reg16(Reg16::BC)),
            MemIndirect::DE => self.memory.read(self.registers.reg16(Reg16::DE)),
            MemIndirect::HL => self.memory.read(self.registers.reg16(Reg16::HL)),
            MemIndirect::HLInc => {
                let hl = self.registers.reg16(Reg16::HL);
                let val = self.memory.read(hl);
                self.registers.write(RegWrite::HL(hl.wrapping_add(1)));
                val
            },
            MemIndirect::HLDec => {
                let hl = self.registers.reg16(Reg16::HL);
                let val = self.memory.read(hl);
                self.registers.write(RegWrite::HL(hl.wrapping_sub(1)));
                val
            },
        }
    }

    #[verifier::rlimit(100)]
    fn write_ind(&mut self, ind: MemIndirect, val: u8)
        requires
            old(self).wf(),
        ensures
            final(self).wf(),
            final(self).registers.pc == old(self).registers.pc,
            final(self).registers.flags == old(self).registers.flags,
            final(self).ime == old(self).ime && final(self).ime_pending == old(self).ime_pending,
            final(self).halted == old(self).halted,
            final(self).memory.progressed(&old(self).memory),
            final(self).memory.stored(&old(self).memory, old(self).ind_addr(ind), val),
            final(self).registers == old(self).ind_step(ind),
    {
        match ind {
            MemIndirect::BC => {
                let a = self.registers.reg16(Reg16::BC);
                self.memory.write(a, val);
            },
            MemIndirect::DE => {
                let a = self.registers.reg16(Reg16::DE);
                self.memory.write(a, val);
            },
            MemIndirect::HL => {
                let a = self.registers.reg16(Reg16::HL);
                self.memory.write(a, val);
            },
            MemIndirect::HLInc => {
                let hl = self.registers.reg16(Reg16::HL);
                self.memory.write(hl, val);
                self.registers.write(RegWrite::HL(hl.wrapping_add(1)));
            },
            MemIndirect::HLDec => {
                let hl = self.registers.reg16(Reg16::HL);
                self.memory.write(hl, val);
                self.registers.write(RegWrite::HL(hl.wrapping_sub(1)));
            },
        }
    }

    fn read_alu(&self, src: AluSrc) -> (r: u8)
        requires
            self.wf(),
        ensures
            r == self.alu_operand(src),
    {
        match src {
            AluSrc::R8(r8) => self.read8(r8),
            AluSrc::Imm(v) => v,
        }
    }

    /// The address 0xFF00 + C or 0xFF00 + an immediate.
    fn io_addr(&self, io: Io) -> (r: u16)
        ensures
            r >= 0xff00,
            r == self.spec_io_addr(io),
    {
        match io {
            Io::C => 0xff00 + self.registers.reg8(Reg8::C) as u16,
            Io::Imm(imm) => 0xff00 + imm as u16,
        }
    }

    fn read_push_pop(&self, pp: PushPop) -> (r: u16)
        ensures
            r == self.spec_pair(pp),
    {
        match pp {
            PushPop::BC => self.registers.reg16(Reg16::BC),
            PushPop::DE => self.registers.reg16(Reg16::DE),
            PushPop::HL => self.registers.reg16(Reg16::HL),
            PushPop::AF => self.registers.reg16(Reg16::AF),
        }
    }

    fn write_push_pop(&mut self, pp: PushPop, val: u16)
        ensures
            final(self).registers.pc == old(self).registers.pc,
            final(self).memory == old(self).memory,
            final(self).ime == old(self).ime && final(self).ime_pending == old(self).ime_pending,
            final(self).halted == old(self).halted,
            final(self).registers.sp == old(self).registers.sp,
            pp == PushPop::BC ==> final(self).registers.spec_reg16(Reg16::BC) == val,
            pp == PushPop::DE ==> final(self).registers.spec_reg16(Reg16::DE) == val,
            pp == PushPop::HL ==> final(self).registers.spec_reg16(Reg16::HL) == val,
            pp == PushPop::AF ==> final(self).registers.spec_reg16(Reg16::AF) == val - val % 16,
    {
        match pp {
            PushPop::BC => self.registers.write(RegWrite::BC(val)),
            PushPop::DE => self.registers.write(RegWrite::DE(val)),
            PushPop::HL => self.registers.write(RegWrite::HL(val)),
            PushPop::AF => self.registers.write(RegWrite::AF(val)),
        }
    }

    fn read_branch_cond(&self, cond: BranchCond) -> (r: bool)
        ensures
            r == cond_holds(self.registers.flags, cond),
    {
        match cond {
            BranchCond::NZ => !self.registers.flags.z,
            BranchCond::Z => self.registers.flags.z,
            BranchCond::NC => !self.registers.flags.c,
            BranchCond::C => self.registers.flags.c,
        }
    }

    #[verifier::rlimit(100)]
    fn push8(&mut self, val: u8)
        requires
            old(self).wf(),
        ensures
            final(self).wf(),
            final(self).registers == (Registers {
                sp: ((old(self).registers.sp + 65535) % 65536) as u16,
                ..old(self).registers
            }),
            final(self).ime == old(self).ime && final(self).ime_pending == old(self).ime_pending,
            final(self).halted == old(self).halted,
            final(self).memory.progressed(&old(self).memory),
            MemoryBus::stack_ram(((old(self).registers.sp + 65535) % 65536) as u16) ==> final(self).memory.spec_read(
                ((old(self).registers.sp + 65535) % 65536) as u16,
            ) == val,
            forall|a: u16| MemoryBus::stack_ram(a) && !MemoryBus::aliases(a, ((old(self).registers.sp + 65535) % 65536) as u16)
                ==> #[trigger] final(self).memory.spec_read(a) == old(self).memory.spec_read(a),
            final(self).memory.stored(&old(self).memory, ((old(self).registers.sp + 65535) % 65536) as u16, val),
    {
        let sp = self.registers.sp.wrapping_sub(1);
        self.registers.write(RegWrite::SP(sp));
        self.memory.write(sp, val);
    }

    #[verifier::rlimit(100)]
    /// Pushes a word: the high byte at SP - 1, the low byte at SP - 2.
    fn push16(&mut self, val: u16)
        requires
            old(self).wf(),
        ensures
            final(self).wf(),
            final(self).registers == (Registers {
                sp: ((old(self).registers.sp + 65534) % 65536) as u16,
                ..old(self).registers
            }),
            final(self).ime == old(self).ime && final(self).ime_pending == old(self).ime_pending,
            final(self).halted == old(self).halted,
            final(self).memory.progressed(&old(self).memory),
            MemoryBus::stack_ram(((old(self).registers.sp + 65535) % 65536) as u16) && MemoryBus::stack_ram(
                ((old(self).registers.sp + 65534) % 65536) as u16,
            ) ==> final(self).memory.spec_read(((old(self).registers.sp + 65535) % 65536) as u16) == val / 256
                && final(self).memory.spec_read(((old(self).registers.sp + 65534) % 65536) as u16) == val % 256,
            final(self).memory.pushed(&old(self).memory, old(self).registers.sp, val),
    {
        self.push8((val / 256) as u8);
        let ghost mid = self.memory;
        self.push8((val % 256) as u8);
        assert(mid.stored(&old(self).memory, ((old(self).registers.sp + 65535) % 65536) as u16, (val / 256) as u8));
    }

    fn pop8(&mut self) -> (r: u8)
        requires
            old(self).wf(),
        ensures
            final(self).wf(),
            r == old(self).memory.spec_read(old(self).registers.sp),
            final(self).registers == (Registers {
                sp: ((old(self).registers.sp + 1) % 65536) as u16,
                ..old(self).registers
            }),
            final(self).memory == old(self).memory,
            final(self).ime == old(self).ime && final(self).ime_pending == old(self).ime_pending,
            final(self).halted == old(self).halted,
    {
        let sp = self.registers.sp;
        let val = self.memory.read(sp);
        self.registers.write(RegWrite::SP(sp.wrapping_add(1)));
        val
    }

    /// Pops a word: the low byte first.
    fn pop16(&mut self) -> (r: u16)
        requires
            old(self).wf(),
        ensures
            final(self).wf(),
            final(self).registers == (Registers {
                sp: ((old(self).registers.sp + 2) % 65536) as u16,
                ..old(self).registers
            }),
            final(self).memory == old(self).memory,
            final(self).ime == old(self).ime && final(self).ime_pending == old(self).ime_pending,
            final(self).halted == old(self).halted,
            r == old(self).memory.spec_read(old(self).registers.sp) + 256 * old(self).memory.spec_read(
                ((old(self).registers.sp + 1) % 65536) as u16,
            ),
    {
        let lsb = self.pop8();
        let msb = self.pop8();
        msb as u16 * 256 + lsb as u16
    }

    fn set_flags(&mut self, z: Option<bool>, n: Option<bool>, h: Option<bool>, c: Option<bool>)
        ensures
            final(self).registers == (Registers {
                flags: Flags {
                    z: pick(z, old(self).registers.flags.z),
                    n: pick(n, old(self).registers.flags.n),
                    h: pick(h, old(self).registers.flags.h),
                    c: pick(c, old(self).registers.flags.c),
                },
                ..old(self).registers
            }),
            final(self).memory == old(self).memory,
            final(self).ime == old(self).ime && final(self).ime_pending == old(self).ime_pending,
            final(self).halted == old(self).halted,
    {
        let f = Flags {
            z: pick_flag(z, self.registers.flags.z),
            n: pick_flag(n, self.registers.flags.n),
            h: pick_flag(h, self.registers.flags.h),
            c: pick_flag(c, self.registers.flags.c),
        };
        self.registers.flags = f;
    }

    #[verifier::rlimit(100)]
    /// Executes an arithmetic-logic instruction: A and the flags become
    /// `alu_result`.
    fn exec_alu(&mut self, instr: Instruction)
        requires
            old(self).wf(),
            Self::is_alu(instr),
        ensures
            final(self).wf(),
            final(self).registers == (Registers {
                a: old(self).alu_result(instr).0,
                flags: old(self).alu_result(instr).1,
                ..old(self).registers
            }),
            final(self).memory == old(self).memory,
            final(self).ime == old(self).ime && final(self).ime_pending == old(self).ime_pending,
            final(self).halted == old(self).halted,
    {
        let carry = self.registers.flags.c;
        let a = self.registers.a;
        match instr {
            Instruction::Add(src) => {
                let v = self.read_alu(src);
                let (r, h, c) = half_overflowing_add8(a, v);
                self.registers.a = r;
                self.set_flags(Some(r == 0), Some(false), Some(h), Some(c));
            },
            Instruction::Adc(src) => {
                let v = self.read_alu(src);
                let (r, h, c) = adc8(a, v, carry);
                self.registers.a = r;
                self.set_flags(Some(r == 0), Some(false), Some(h), Some(c));
            },
            Instruction::Sub(src) => {
                let v = self.read_alu(src);
                let (r, h, c) = half_overflowing_sub8(a, v);
                self.registers.a = r;
                self.set_flags(Some(r == 0), Some(true), Some(h), Some(c));
            },
            Instruction::Sbc(src) => {
                let v = self.read_alu(src);
                let (r, h, c) = sbc8(a, v, carry);
                self.registers.a = r;
                self.set_flags(Some(r == 0), Some(true), Some(h), Some(c));
            },
            Instruction::And(src) => {
                let r = a & self.read_alu(src);
                self.registers.a = r;
                self.set_flags(Some(r == 0), Some(false), Some(true), Some(false));
            },
            Instruction::Xor(src) => {
                let r = a ^ self.read_alu(src);
                self.registers.a = r;
                self.set_flags(Some(r == 0), Some(false), Some(false), Some(false));
            },
            Instruction::Or(src) => {
                let r = a | self.read_alu(src);
                self.registers.a = r;
                self.set_flags(Some(r == 0), Some(false), Some(false), Some(false));
            },
            _ => {
                let src = match instr {
                    Instruction::Cp(s) => s,
                    _ => AluSrc::Imm(0),
                };
                let v = self.read_alu(src);
                let (r, h, c) = half_overflowing_sub8(a, v);
                self.set_flags(Some(r == 0), Some(true), Some(h), Some(c));
            },
        }
    }

    /// Executes a load.
    #[verifier::rlimit(80)]
    fn exec_load(&mut self, ld: LdType)
        requires
            old(self).wf(),
        ensures
            final(self).wf(),
            final(self).registers.pc == old(self).registers.pc,
            final(self).ime == old(self).ime && final(self).ime_pending == old(self).ime_pending,
            final(self).halted == old(self).halted,
            final(self).memory.progressed(&old(self).memory),
            old(self).load_done(final(self), ld),
            final(self).mem_done(old(self), Instruction::Ld(ld)),
    {
        match ld {
            LdType::R8(dest, src) => {
                let v = self.read8(src);
                self.write8(dest, v);
            },
            LdType::R8Imm(dest, v) => self.write8(dest, v),
            LdType::R16Imm(dest, v) => self.write16(dest, v),
            LdType::AFromInd(src) => {
                let v = self.read_ind(MemIndirect::from_indirect(src));
                self.write8(R8::A, v);
            },
            LdType::IndFromA(dest) => {
                let a = self.registers.a;
                self.write_ind(MemIndirect::from_indirect(dest), a);
            },
            LdType::AFromIoReg(src) => {
                let v = self.memory.read(self.io_addr(src));
                self.write8(R8::A, v);
            },
            LdType::IoRegFromA(dest) => {
                let a = self.registers.a;
                let addr = self.io_addr(dest);
                self.memory.write(addr, a);
            },
            LdType::AFromMem(addr) => {
                let v = self.memory.read(addr);
                self.write8(R8::A, v);
            },
            LdType::MemFromA(addr) => {
                let a = self.registers.a;
                self.memory.write(addr, a);
            },
            LdType::StoreSP(addr) => {
                let sp = self.registers.sp;
                self.memory.write(addr, (sp % 256) as u8);
                self.memory.write(addr.wrapping_add(1), (sp / 256) as u8);
            },
            LdType::HLFromSP(offset) => {
                let (result, h, c) = half_overflowing_add_signed16(self.registers.sp, offset);
                self.registers.write(RegWrite::HL(result));
                self.set_flags(Some(false), Some(false), Some(h), Some(c));
            },
            LdType::SPFromHL => {
                let hl = self.registers.reg16(Reg16::HL);
                self.registers.write(RegWrite::SP(hl));
            },
        }
    }

    /// Executes a shift, rotate or bit instruction on a byte operand.
    #[verifier::rlimit(80)]
    fn exec_shift(&mut self, instr: Instruction, r8: R8)
        requires
            old(self).wf(),
        ensures
            final(self).wf(),
            final(self).registers.pc == old(self).registers.pc,
            final(self).ime == old(self).ime && final(self).ime_pending == old(self).ime_pending,
            final(self).halted == old(self).halted,
            final(self).memory.progressed(&old(self).memory),
            final(self).registers == old(self).shifted(instr, r8),
            r8 == R8::HLInd && shift_spec(instr, old(self).spec_r8(r8), old(self).registers.flags.c).0 ==> final(self).memory.stored(
                &old(self).memory,
                old(self).spec_hl(),
                shift_spec(instr, old(self).spec_r8(r8), old(self).registers.flags.c).1,
            ),
            !(r8 == R8::HLInd && shift_spec(instr, old(self).spec_r8(r8), old(self).registers.flags.c).0) ==> final(self).memory == old(self).memory,
    {
        let v = self.read8(r8);
        let (write, r, z, n, h, c) = shift_op(instr, v, self.registers.flags.c);
        if write {
            self.write8(r8, r);
        }
        self.set_flags(z, n, h, c);
    }

    /// Executes the remaining instructions that leave PC alone.
    #[verifier::rlimit(100)]
    fn exec_misc(&mut self, instr: Instruction)
        requires
            old(self).wf(),
            !is_control(instr),
        ensures
            final(self).wf(),
            final(self).registers.pc == old(self).registers.pc,
            instr == Instruction::Halt ==> final(self).halted,
            instr != Instruction::Halt ==> final(self).halted == old(self).halted,
            instr == Instruction::Di ==> !final(self).ime && !final(self).ime_pending,
            instr == Instruction::Ei ==> final(self).ime_pending && final(self).ime == old(self).ime,
            instr != Instruction::Di && instr != Instruction::Ei ==> final(self).ime == old(self).ime
                && final(self).ime_pending == old(self).ime_pending,
            final(self).memory.progressed(&old(self).memory),
            final(self).misc_done(old(self), instr),
            final(self).mem_done(old(self), instr),
    {
        match instr {
            Instruction::IncR8(_) | Instruction::DecR8(_) | Instruction::IncR16(_) | Instruction::DecR16(_)
            | Instruction::AddHL(_) | Instruction::AddSP(_) => self.exec_arith(instr),
            Instruction::Rlc(_) | Instruction::Rrc(_) | Instruction::Rl(_) | Instruction::Rr(_)
            | Instruction::Sla(_) | Instruction::Sra(_) | Instruction::Swap(_) | Instruction::Srl(_)
            | Instruction::Bit(_, _) | Instruction::Res(_, _) | Instruction::SetBit(_, _) | Instruction::Rlca
            | Instruction::Rla | Instruction::Rrca | Instruction::Rra | Instruction::Scf | Instruction::Ccf
            | Instruction::Daa | Instruction::Cpl => self.exec_bits(instr),
            _ => self.exec_other(instr),
        }
    }

    #[verifier::rlimit(100)]
    fn exec_arith(&mut self, instr: Instruction)
        requires
            old(self).wf(),
            !is_control(instr),
            instr matches Instruction::IncR8(_) || instr matches Instruction::DecR8(_) || instr matches Instruction::IncR16(_) || instr matches Instruction::DecR16(_) || instr matches Instruction::AddHL(_) || instr matches Instruction::AddSP(_),
        ensures
            final(self).wf(),
            final(self).registers.pc == old(self).registers.pc,
            instr == Instruction::Halt ==> final(self).halted,
            instr != Instruction::Halt ==> final(self).halted == old(self).halted,
            instr == Instruction::Di ==> !final(self).ime && !final(self).ime_pending,
            instr == Instruction::Ei ==> final(self).ime_pending && final(self).ime == old(self).ime,
            instr != Instruction::Di && instr != Instruction::Ei ==> final(self).ime == old(self).ime
                && final(self).ime_pending == old(self).ime_pending,
            final(self).memory.progressed(&old(self).memory),
            final(self).misc_done(old(self), instr),
            final(self).mem_done(old(self), instr),
    {
        match instr {
            Instruction::IncR8(r8) => {
                let (val, h, _) = half_overflowing_add8(self.read8(r8), 1);
                self.write8(r8, val);
                self.set_flags(Some(val == 0), Some(false), Some(h), None);
            },
            Instruction::DecR8(r8) => {
                let (val, h, _) = half_overflowing_sub8(self.read8(r8), 1);
                self.write8(r8, val);
                self.set_flags(Some(val == 0), Some(true), Some(h), None);
            },
            Instruction::IncR16(r16) => {
                let val = self.read16(r16).wrapping_add(1);
                self.write16(r16, val);
            },
            Instruction::DecR16(r16) => {
                let val = self.read16(r16).wrapping_sub(1);
                self.write16(r16, val);
            },
            Instruction::AddHL(src) => {
                let (result, h, c) = half_overflowing_add16(self.read16(src), self.read16(R16::HL));
                self.write16(R16::HL, result);
                self.set_flags(None, Some(false), Some(h), Some(c));
            },
            Instruction::AddSP(offset) => {
                let (result, h, c) = half_overflowing_add_signed16(self.registers.sp, offset);
                self.registers.write(RegWrite::SP(result));
                self.set_flags(Some(false), Some(false), Some(h), Some(c));
            },
            _ => {},
        }
    }

    #[verifier::rlimit(100)]
    fn exec_bits(&mut self, instr: Instruction)
        requires
            old(self).wf(),
            !is_control(instr),
            (instr matches Instruction::Rlc(_) || instr matches Instruction::Rrc(_) || instr matches Instruction::Rl(_) || instr matches Instruction::Rr(_) || instr matches Instruction::Sla(_) || instr matches Instruction::Sra(_) || instr matches Instruction::Swap(_) || instr matches Instruction::Srl(_) || instr matches Instruction::Bit(_, _) || instr matches Instruction::Res(_, _) || instr matches Instruction::SetBit(_, _) || instr == Instruction::Rlca || instr == Instruction::Rla || instr == Instruction::Rrca || instr == Instruction::Rra || instr == Instruction::Scf || instr == Instruction::Ccf || instr == Instruction::Daa || instr == Instruction::Cpl),
        ensures
            final(self).wf(),
            final(self).registers.pc == old(self).registers.pc,
            instr == Instruction::Halt ==> final(self).halted,
            instr != Instruction::Halt ==> final(self).halted == old(self).halted,
            instr == Instruction::Di ==> !final(self).ime && !final(self).ime_pending,
            instr == Instruction::Ei ==> final(self).ime_pending && final(self).ime == old(self).ime,
            instr != Instruction::Di && instr != Instruction::Ei ==> final(self).ime == old(self).ime
                && final(self).ime_pending == old(self).ime_pending,
            final(self).memory.progressed(&old(self).memory),
            final(self).misc_done(old(self), instr),
            final(self).mem_done(old(self), instr),
    {
        match instr {
            Instruction::Rlc(r8) | Instruction::Rrc(r8) | Instruction::Rl(r8) | Instruction::Rr(r8)
            | Instruction::Sla(r8) | Instruction::Sra(r8) | Instruction::Swap(r8)
            | Instruction::Srl(r8) | Instruction::Bit(_, r8) | Instruction::Res(_, r8)
            | Instruction::SetBit(_, r8) => self.exec_shift(instr, r8),
            Instruction::Rlca => {
                let (r, c) = rlc8(self.registers.a);
                self.registers.a = r;
                self.set_flags(Some(false), Some(false), Some(false), Some(c));
            },
            Instruction::Rla => {
                let (r, c) = rl8(self.registers.a, self.registers.flags.c);
                self.registers.a = r;
                self.set_flags(Some(false), Some(false), Some(false), Some(c));
            },
            Instruction::Rrca => {
                let (r, c) = rrc8(self.registers.a);
                self.registers.a = r;
                self.set_flags(Some(false), Some(false), Some(false), Some(c));
            },
            Instruction::Rra => {
                let (r, c) = rr8(self.registers.a, self.registers.flags.c);
                self.registers.a = r;
                self.set_flags(Some(false), Some(false), Some(false), Some(c));
            },
            Instruction::Scf => self.set_flags(None, Some(false), Some(false), Some(true)),
            Instruction::Ccf => {
                let c = self.registers.flags.c;
                self.set_flags(None, Some(false), Some(false), Some(!c));
            },
            Instruction::Daa => {
                let f = self.registers.flags;
                let (val, c) = daa8(self.registers.a, f.n, f.h, f.c);
                self.registers.a = val;
                self.set_flags(Some(val == 0), None, Some(false), Some(c));
            },
            Instruction::Cpl => {
                self.registers.a = !self.registers.a;
                self.set_flags(None, Some(true), Some(true), None);
            },
            _ => {},
        }
    }

    #[verifier::rlimit(100)]
    fn exec_other(&mut self, instr: Instruction)
        requires
            old(self).wf(),
            !is_control(instr),
            !(instr matches Instruction::IncR8(_) || instr matches Instruction::DecR8(_) || instr matches Instruction::IncR16(_) || instr matches Instruction::DecR16(_) || instr matches Instruction::AddHL(_) || instr matches Instruction::AddSP(_)) && !(instr matches Instruction::Rlc(_) || instr matches Instruction::Rrc(_) || instr matches Instruction::Rl(_) || instr matches Instruction::Rr(_) || instr matches Instruction::Sla(_) || instr matches Instruction::Sra(_) || instr matches Instruction::Swap(_) || instr matches Instruction::Srl(_) || instr matches Instruction::Bit(_, _) || instr matches Instruction::Res(_, _) || instr matches Instruction::SetBit(_, _) || instr == Instruction::Rlca || instr == Instruction::Rla || instr == Instruction::Rrca || instr == Instruction::Rra || instr == Instruction::Scf || instr == Instruction::Ccf || instr == Instruction::Daa || instr == Instruction::Cpl),
        ensures
            final(self).wf(),
            final(self).registers.pc == old(self).registers.pc,
            instr == Instruction::Halt ==> final(self).halted,
            instr != Instruction::Halt ==> final(self).halted == old(self).halted,
            instr == Instruction::Di ==> !final(self).ime && !final(self).ime_pending,
            instr == Instruction::Ei ==> final(self).ime_pending && final(self).ime == old(self).ime,
            instr != Instruction::Di && instr != Instruction::Ei ==> final(self).ime == old(self).ime
                && final(self).ime_pending == old(self).ime_pending,
            final(self).memory.progressed(&old(self).memory),
            final(self).misc_done(old(self), instr),
            final(self).mem_done(old(self), instr),
    {
        match instr {
            Instruction::Push(src) => {
                let val = self.read_push_pop(src);
                self.push16(val);
            },
            Instruction::Pop(dest) => {
                let val = self.pop16();
                self.write_push_pop(dest, val);
            },
            Instruction::Di => {
                self.ime = false;
                self.ime_pending = false;
            },
            Instruction::Ei => self.ime_pending = true,
            Instruction::Halt => self.halted = true,
            Instruction::Ld(ld) => self.exec_load(ld),
            Instruction::Add(_) | Instruction::Adc(_) | Instruction::Sub(_) | Instruction::Sbc(_)
            | Instruction::And(_) | Instruction::Xor(_) | Instruction::Or(_) | Instruction::Cp(_) => self.exec_alu(instr),
            _ => {},
        }
    }


    /// The program counter plus a signed offset, wrapping.
    fn pc_offset(pc: u16, offset: i8) -> (r: u16)
        ensures
            r == (pc + offset + 65536) % 65536,
    {
        ((pc as i32 + offset as i32 + 65536) % 65536) as u16
    }

    #[verifier::rlimit(100)]
    /// Executes a control-flow instruction; returns whether its condition
    /// held (always for the unconditional ones).
    fn exec_control(&mut self, instr: Instruction) -> (r: bool)
        requires
            old(self).wf(),
            is_control(instr),
        ensures
            final(self).wf(),
            r == match branch_cond(instr) {
                Some(c) => cond_holds(old(self).registers.flags, c),
                None => true,
            },
            final(self).halted == old(self).halted,
            instr == Instruction::Reti ==> final(self).ime,
            instr != Instruction::Reti ==> final(self).ime == old(self).ime,
            final(self).ime_pending == old(self).ime_pending,
            !r ==> final(self).registers == old(self).registers && final(self).memory == old(self).memory,
            instr matches Instruction::JpAlways(a) ==> final(self).registers.pc == a,
            instr matches Instruction::Jp(_, a) ==> r ==> final(self).registers.pc == a,
            instr matches Instruction::JrAlways(o) ==> final(self).registers.pc == (old(self).registers.pc + o + 65536) % 65536,
            instr matches Instruction::Jr(_, o) ==> r ==> final(self).registers.pc == (old(self).registers.pc + o + 65536) % 65536,
            instr matches Instruction::CallAlways(a) ==> final(self).registers.pc == a,
            instr matches Instruction::Call(_, a) ==> r ==> final(self).registers.pc == a,
            instr matches Instruction::Rst(a) ==> final(self).registers.pc == a,
            instr == Instruction::JpHL ==> final(self).registers.pc == old(self).registers.spec_reg16(Reg16::HL),
            final(self).memory.progressed(&old(self).memory),
            instr matches Instruction::Ret(c) ==> final(self).registers.pc == if cond_holds(
                old(self).registers.flags,
                c,
            ) {
                old(self).stack_word() as u16
            } else {
                old(self).registers.pc
            },
            instr == Instruction::RetAlways || instr == Instruction::Reti ==> final(self).registers.pc
                == old(self).stack_word() as u16 && final(self).registers.sp == (old(self).registers.sp + 2) % 65536,
            (instr matches Instruction::CallAlways(_) || instr matches Instruction::Rst(_)) ==> final(self).registers.sp
                == (old(self).registers.sp + 65534) % 65536,
            (instr matches Instruction::CallAlways(_) || instr matches Instruction::Rst(_)) ==> final(self).memory.pushed(
                &old(self).memory,
                old(self).registers.sp,
                old(self).registers.pc,
            ),
            instr matches Instruction::Call(c, _) ==> cond_holds(old(self).registers.flags, c) ==> final(self).memory.pushed(
                &old(self).memory,
                old(self).registers.sp,
                old(self).registers.pc,
            ),
    {
        match instr {
            Instruction::Jr(cond, offset) => {
                if self.read_branch_cond(cond) {
                    self.registers.pc = Self::pc_offset(self.registers.pc, offset);
                    true
                } else {
                    false
                }
            },
            Instruction::JrAlways(offset) => {
                self.registers.pc = Self::pc_offset(self.registers.pc, offset);
                true
            },
            Instruction::Jp(cond, addr) => {
                if self.read_branch_cond(cond) {
                    self.registers.pc = addr;
                    true
                } else {
                    false
                }
            },
            Instruction::JpAlways(addr) => {
                self.registers.pc = addr;
                true
            },
            Instruction::Call(cond, addr) => {
                if self.read_branch_cond(cond) {
                    let pc = self.registers.pc;
                    self.push16(pc);
                    self.registers.pc = addr;
                    true
                } else {
                    false
                }
            },
            Instruction::CallAlways(addr) => {
                let pc = self.registers.pc;
                self.push16(pc);
                self.registers.pc = addr;
                true
            },
            Instruction::Ret(cond) => {
                if self.read_branch_cond(cond) {
                    let pc = self.pop16();
                    self.registers.pc = pc;
                    true
                } else {
                    false
                }
            },
            Instruction::RetAlways => {
                let pc = self.pop16();
                self.registers.pc = pc;
                true
            },
            Instruction::Rst(addr) => {
                let pc = self.registers.pc;
                self.push16(pc);
                self.registers.pc = addr as u16;
                true
            },
            Instruction::Reti => {
                let pc = self.pop16();
                self.registers.pc = pc;
                self.ime = true;
                true
            },
            _ => {
                self.registers.pc = self.registers.reg16(Reg16::HL);
                true
            },
        }
    }

    /// The machine cycles an instruction takes, given whether its condition
    /// held.
    pub open spec fn spec_cycles(instr: Instruction, taken: bool) -> u64 {
        match instr.spec_mcycles() {
            CycleCount::Const(c) => c,
            CycleCount::Branch(not_taken, taken_cycles) => if taken { taken_cycles } else { not_taken },
        }
    }

    #[verifier::rlimit(100)]
    /// Executes one instruction (PC already past it) and returns its machine
    /// cycles: conditional instructions take the longer count when their
    /// condition held.
    pub fn execute_instr(&mut self, instr: Instruction) -> (r: u64)
        requires
            old(self).wf(),
            instr != Instruction::Stop,
        ensures
            final(self).wf(),
            r == Self::spec_cycles(instr, match branch_cond(instr) {
                Some(c) => cond_holds(old(self).registers.flags, c),
                None => true,
            }),
            !is_control(instr) ==> final(self).registers.pc == old(self).registers.pc,
            Self::is_alu(instr) ==> final(self).registers == (Registers {
                a: old(self).alu_result(instr).0,
                flags: old(self).alu_result(instr).1,
                ..old(self).registers
            }),
            instr == Instruction::Halt ==> final(self).halted,
            instr == Instruction::Di ==> !final(self).ime && !final(self).ime_pending,
            instr == Instruction::Ei ==> final(self).ime_pending,
            instr == Instruction::Reti ==> final(self).ime,
            instr matches Instruction::JpAlways(a) ==> final(self).registers.pc == a,
            instr matches Instruction::Jp(c, a) ==> final(self).registers.pc == if cond_holds(
                old(self).registers.flags,
                c,
            ) {
                a
            } else {
                old(self).registers.pc
            },
            instr matches Instruction::JrAlways(o) ==> final(self).registers.pc == (old(
                self,
            ).registers.pc + o + 65536) % 65536,
            instr matches Instruction::Jr(c, o) ==> final(self).registers.pc == if cond_holds(
                old(self).registers.flags,
                c,
            ) {
                ((old(self).registers.pc + o + 65536) % 65536) as u16
            } else {
                old(self).registers.pc
            },
            instr matches Instruction::CallAlways(a) ==> final(self).registers.pc == a,
            instr matches Instruction::Call(c, a) ==> final(self).registers.pc == if cond_holds(
                old(self).registers.flags,
                c,
            ) {
                a
            } else {
                old(self).registers.pc
            },
            instr matches Instruction::Rst(a) ==> final(self).registers.pc == a,
            instr == Instruction::JpHL ==> final(self).registers.pc == old(self).registers.spec_reg16(
                Reg16::HL,
            ),
            final(self).memory.progressed(&old(self).memory),
            instr matches Instruction::Ret(c) ==> final(self).registers.pc == if cond_holds(
                old(self).registers.flags,
                c,
            ) {
                old(self).stack_word() as u16
            } else {
                old(self).registers.pc
            },
            instr == Instruction::RetAlways || instr == Instruction::Reti ==> final(self).registers.pc
                == old(self).stack_word() as u16 && final(self).registers.sp == (old(self).registers.sp + 2) % 65536,
            (instr matches Instruction::CallAlways(_) || instr matches Instruction::Rst(_)) ==> final(self).registers.sp
                == (old(self).registers.sp + 65534) % 65536,
            !is_control(instr) && !Self::is_alu(instr) ==> final(self).misc_done(old(self), instr),
            instr != Instruction::Di && instr != Instruction::Ei && instr != Instruction::Reti ==> final(self).ime
                == old(self).ime && final(self).ime_pending == old(self).ime_pending,
            instr == Instruction::Ei ==> final(self).ime == old(self).ime,
            instr == Instruction::Reti ==> final(self).ime_pending == old(self).ime_pending,
            !is_control(instr) && !Self::is_alu(instr) ==> final(self).mem_done(old(self), instr),
            (instr matches Instruction::CallAlways(_) || instr matches Instruction::Rst(_)) ==> final(self).memory.pushed(
                &old(self).memory,
                old(self).registers.sp,
                old(self).registers.pc,
            ),
            instr matches Instruction::Call(c, _) ==> cond_holds(old(self).registers.flags, c) ==> final(self).memory.pushed(
                &old(self).memory,
                old(self).registers.sp,
                old(self).registers.pc,
            ),
    {
        let taken = if is_control_instr(instr) {
            self.exec_control(instr)
        } else {
            match instr {
                Instruction::Add(_) | Instruction::Adc(_) | Instruction::Sub(_) | Instruction::Sbc(_)
                | Instruction::And(_) | Instruction::Xor(_) | Instruction::Or(_) | Instruction::Cp(_) => self.exec_alu(instr),
                _ => self.exec_misc(instr),
            }
            true
        };
        match instr.mcycles() {
            CycleCount::Const(c) => c,
            CycleCount::Branch(not_taken, taken_cycles) => if taken {
                taken_cycles
            } else {
                not_taken
            },
        }
    }

    /// Runs one decoded instruction: PC moves past it, it executes, a
    /// pending EI takes effect, and the machine runs its cycles. PC then
    /// points at the next instruction in sequence unless the instruction
    /// wrote it.
    #[verifier::rlimit(100)]
    pub fn run_instruction(&mut self, instr: Instruction) -> (r: u64)
        requires
            old(self).wf(),
            instr != Instruction::Stop,
        ensures
            final(self).wf(),
            !is_control(instr) ==> final(self).registers.pc == (old(self).registers.pc + instr.spec_length()) % 65536,
            Self::is_alu(instr) ==> final(self).registers.a == old(self).alu_result(instr).0
                && final(self).registers.flags == old(self).alu_result(instr).1,
            r == Self::spec_cycles(instr, match branch_cond(instr) {
                Some(c) => cond_holds(old(self).registers.flags, c),
                None => true,
            }),
            final(self).memory.progressed(&old(self).memory),
            branch_cond(instr) matches Some(c) && !cond_holds(old(self).registers.flags, c) ==> final(self).registers.pc
                == (old(self).registers.pc + instr.spec_length()) % 65536,
            !is_control(instr) && !Self::is_alu(instr) ==> final(self).misc_done(
                &Cpu {
                    registers: Registers {
                        pc: ((old(self).registers.pc + instr.spec_length()) % 65536) as u16,
                        ..old(self).registers
                    },
                    ..*old(self)
                },
                instr,
            ),
            old(self).ime_pending && instr != Instruction::Di ==> final(self).ime && !final(self).ime_pending,
            !old(self).ime_pending && instr == Instruction::Ei ==> final(self).ime == old(self).ime
                && final(self).ime_pending,
            instr == Instruction::Di ==> !final(self).ime && !final(self).ime_pending,
            !old(self).ime_pending && instr != Instruction::Ei && instr != Instruction::Di && instr
                != Instruction::Reti ==> final(self).ime == old(self).ime && !final(self).ime_pending,
            instr == Instruction::Reti ==> final(self).ime,
    {
        let len = instr.length() as u16;
        self.registers.pc = self.registers.pc.wrapping_add(len);
        let ghost advanced = *self;
        assert(advanced == (Cpu {
            registers: Registers {
                pc: ((old(self).registers.pc + instr.spec_length()) % 65536) as u16,
                ..old(self).registers
            },
            ..*old(self)
        }));
        let pending = self.ime_pending;
        let cycles = self.execute_instr(instr);
        let ghost executed = *self;
        if pending && self.ime_pending {
            self.ime = true;
            self.ime_pending = false;
        }
        self.mticks(cycles);
        assert(forall|p: Cpu, i: Instruction| #[trigger] self.misc_done(&p, i) == executed.misc_done(&p, i) || self.registers != executed.registers);
        cycles
    }

    /// Fetches, decodes and runs one instruction, after servicing a pending
    /// interrupt; while halted, lets one machine cycle pass. Returns the
    /// machine cycles used, or the fault that stops the processor.
    /// `r` is the outcome of fetching and running the instruction at PC of
    /// `pre`, and `self` the state after it, as far as stated.
    pub open spec fn fetched(&self, pre: &Cpu, r: Result<u64, CpuError>) -> bool {
        let pc = pre.registers.pc;
        let op = pre.memory.spec_read(pc);
        let b1 = pre.memory.spec_read(((pc + 1) % 65536) as u16);
        let b2 = pre.memory.spec_read(((pc + 2) % 65536) as u16);
        let d = spec_decode(op, b1, b2);
        if d is None {
            r == Err::<u64, CpuError>(CpuError::IllegalOpcode { pc, opcode: op })
        } else if d == Some(Instruction::Stop) {
            r == Err::<u64, CpuError>(CpuError::Stop { pc })
        } else {
            let i = d.unwrap();
            let taken = match branch_cond(i) {
                Some(c) => cond_holds(pre.registers.flags, c),
                None => true,
            };
            &&& r == Ok::<u64, CpuError>(Self::spec_cycles(i, taken))
            &&& (!is_control(i) || !taken) ==> self.registers.pc == (pc + i.spec_length()) % 65536
        }
    }

    #[verifier::rlimit(100)]
    /// Fetches, decodes and runs the instruction at PC.
    fn fetch_execute(&mut self) -> (r: Result<u64, CpuError>)
        requires
            old(self).wf(),
        ensures
            final(self).wf(),
            final(self).memory.progressed(&old(self).memory),
            final(self).fetched(old(self), r),
    {
        let pc = self.registers.pc;
        let op = self.arg8(0);
        let b1 = self.arg8(1);
        let b2 = self.arg8(2);
        match decode(op, b1, b2) {
            None => Err(CpuError::IllegalOpcode { pc, opcode: op }),
            Some(Instruction::Stop) => Err(CpuError::Stop { pc }),
            Some(instr) => Ok(self.run_instruction(instr)),
        }
    }

    /// Services a pending interrupt, or lets one cycle pass while halted, or
    /// fetches and runs the next instruction. Returns the machine cycles
    /// used, or the fault that stops the processor.
    #[verifier::rlimit(100)]
    pub fn step(&mut self) -> (r: Result<u64, CpuError>)
        requires
            old(self).wf(),
        ensures
            final(self).wf(),
            final(self).memory.progressed(&old(self).memory),
            old(self).ime && pending(&old(self).memory) != 0 ==> r == Ok::<u64, CpuError>(5)
                && final(self).registers.pc == 0x40 + 8 * lowest_pending(pending(&old(self).memory)),
            !(old(self).ime && pending(&old(self).memory) != 0) && old(self).halted && pending(&old(self).memory)
                == 0 ==> r == Ok::<u64, CpuError>(1) && final(self).registers == old(self).registers,
            !(old(self).ime && pending(&old(self).memory) != 0) && !(old(self).halted && pending(&old(self).memory)
                == 0) ==> final(self).fetched(old(self), r),
    {
        if self.check_for_interrupts() {
            return Ok(5);
        }
        if self.halted {
            self.mtick();
            return Ok(1);
        }
        let ghost mid = *self;
        let r = self.fetch_execute();
        proof {
            assert(mid.registers == old(self).registers && mid.memory == old(self).memory);
        }
        r
    }

    #[verifier::rlimit(100)]
    /// Runs instructions until the picture unit completes a frame, or a
    /// fault stops the processor. A frame takes 17556 machine cycles; after
    /// twice that many instructions without one the run gives up.
    pub fn run_frame(&mut self) -> (r: Result<(), CpuError>)
        requires
            old(self).wf(),
        ensures
            final(self).wf(),
            r is Ok ==> old(self).memory.ppu.draw || final(self).memory.ppu.completed@ > old(
                self,
            ).memory.ppu.completed@,
    {
        let mut n: u32 = 0;
        while n < 2 * 17556
            invariant
                self.wf(),
                self.memory.progressed(&old(self).memory),
            decreases 2 * 17556 - n,
        {
            self.step()?;
            if self.memory.ppu.draw_check() {
                return Ok(());
            }
            n = n + 1;
        }
        Err(CpuError::FrameTimeout)
    }

    /// The joypad, for button updates between frames.
    pub fn joypad_mut(&mut self) -> (r: &mut Joypad)
        ensures
            *r == old(self).memory.joypad,
            *final(self) == (Cpu { memory: MemoryBus { joypad: *final(r), ..old(self).memory }, ..*old(self) }),
    {
        &mut self.memory.joypad
    }

    pub fn ppu_mut(&mut self) -> (r: &mut Ppu)
        ensures
            *r == old(self).memory.ppu,
            *final(self) == (Cpu { memory: MemoryBus { ppu: *final(r), ..old(self).memory }, ..*old(self) }),
    {
        &mut self.memory.ppu
    }

    /// The cartridge's battery-backed state.
    pub fn save_external_ram(&self) -> (r: Vec<u8>)
        requires
            self.wf(),
        ensures
            r@ == self.memory.cartridge.spec_blob(),
    {
        self.memory.cartridge.save_external_ram()
    }
}

/// The effect of a shift, rotate or bit instruction on byte `v` with carry
/// flag `carry`: whether the operand is written, its new value, and the
/// flags it sets (Z, N, H, C; `None` keeps a flag).
pub open spec fn shift_spec(instr: Instruction, v: u8, carry: bool) -> (bool, u8, Option<bool>, Option<bool>, Option<bool>, Option<bool>) {
    match instr {
        Instruction::Rlc(_) => {
            let r = ((v % 128) * 2 + v / 128) as u8;
            (true, r, Some(r == 0), Some(false), Some(false), Some(v >= 128))
        },
        Instruction::Rrc(_) => {
            let r = (v / 2 + (v % 2) * 128) as u8;
            (true, r, Some(r == 0), Some(false), Some(false), Some(v % 2 == 1))
        },
        Instruction::Rl(_) => {
            let r = ((v % 128) * 2 + if carry { 1int } else { 0 }) as u8;
            (true, r, Some(r == 0), Some(false), Some(false), Some(v >= 128))
        },
        Instruction::Rr(_) => {
            let r = (v / 2 + if carry { 128int } else { 0 }) as u8;
            (true, r, Some(r == 0), Some(false), Some(false), Some(v % 2 == 1))
        },
        Instruction::Sla(_) => {
            let r = ((v % 128) * 2) as u8;
            (true, r, Some(r == 0), Some(false), Some(false), Some(v >= 128))
        },
        Instruction::Sra(_) => {
            let r = (v / 2 + (v / 128) * 128) as u8;
            (true, r, Some(r == 0), Some(false), Some(false), Some(v % 2 == 1))
        },
        Instruction::Swap(_) => {
            let r = ((v % 16) * 16 + v / 16) as u8;
            (true, r, Some(r == 0), Some(false), Some(false), Some(false))
        },
        Instruction::Srl(_) => {
            let r = v / 2;
            (true, r, Some(r == 0), Some(false), Some(false), Some(v % 2 == 1))
        },
        Instruction::Bit(pos, _) => (false, v, Some((v >> pos.spec_index()) & 1 == 0), Some(false), Some(true), None),
        Instruction::Res(pos, _) => (true, v & !(1u8 << pos.spec_index()), None, None, None, None),
        Instruction::SetBit(pos, _) => (true, v | (1u8 << pos.spec_index()), None, None, None, None),
        _ => (false, v, None, None, None, None),
    }
}

#[verifier::rlimit(80)]
pub fn shift_op(instr: Instruction, v: u8, carry: bool) -> (r: (
    bool,
    u8,
    Option<bool>,
    Option<bool>,
    Option<bool>,
    Option<bool>,
))
    ensures
        r == shift_spec(instr, v, carry),
{
    match instr {
        Instruction::Rlc(_) => {
            let (r, c) = rlc8(v);
            (true, r, Some(r == 0), Some(false), Some(false), Some(c))
        },
        Instruction::Rrc(_) => {
            let (r, c) = rrc8(v);
            (true, r, Some(r == 0), Some(false), Some(false), Some(c))
        },
        Instruction::Rl(_) => {
            let (r, c) = rl8(v, carry);
            (true, r, Some(r == 0), Some(false), Some(false), Some(c))
        },
        Instruction::Rr(_) => {
            let (r, c) = rr8(v, carry);
            (true, r, Some(r == 0), Some(false), Some(false), Some(c))
        },
        Instruction::Sla(_) => {
            let (r, c) = sla8(v);
            (true, r, Some(r == 0), Some(false), Some(false), Some(c))
        },
        Instruction::Sra(_) => {
            let (r, c) = sra8(v);
            (true, r, Some(r == 0), Some(false), Some(false), Some(c))
        },
        Instruction::Swap(_) => {
            let r = swap8(v);
            (true, r, Some(r == 0), Some(false), Some(false), Some(false))
        },
        Instruction::Srl(_) => {
            let (r, c) = srl8(v);
            (true, r, Some(r == 0), Some(false), Some(false), Some(c))
        },
        Instruction::Bit(pos, _) => {
            let bit = (v >> pos.index()) & 1;
            (false, v, Some(bit == 0), Some(false), Some(true), None)
        },
        Instruction::Res(pos, _) => (true, v & !(1u8 << pos.index()), None, None, None, None),
        Instruction::SetBit(pos, _) => (true, v | (1u8 << pos.index()), None, None, None, None),
        _ => (false, v, None, None, None, None),
    }
}

/// Whether an instruction writes the program counter.
pub fn is_control_instr(i: Instruction) -> (r: bool)
    ensures
        r == is_control(i),
{
    match i {
        Instruction::Jr(_, _) | Instruction::JrAlways(_) | Instruction::Jp(_, _)
        | Instruction::JpAlways(_) | Instruction::Call(_, _) | Instruction::CallAlways(_)
        | Instruction::Ret(_) | Instruction::RetAlways | Instruction::Rst(_) | Instruction::Reti
        | Instruction::JpHL => true,
        _ => false,
    }
}

} // verus!
