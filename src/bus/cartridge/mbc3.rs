//! The MBC3 mapper, with optional RAM and an optional real-time clock.
use vstd::prelude::*;
use super::filled;
use super::mbc1::{RAM_BANK, ROM_BANK};

verus! {

pub struct MBC3 {
    pub rom: Vec<u8>,
    pub num_banks: u16,
    /// Seven-bit bank register, never zero.
    pub bank: u8,
}

impl MBC3 {
    pub open spec fn wf(&self) -> bool {
        &&& 1 <= self.num_banks <= 512
        &&& self.rom.len() >= self.num_banks * ROM_BANK
        &&& 1 <= self.bank < 128
    }

    pub open spec fn spec_read(&self, addr: u16) -> u8 {
        if addr < 0x4000 {
            self.rom@[addr as int]
        } else if addr < 0x8000 {
            self.rom@[(self.bank as int % self.num_banks as int) * ROM_BANK + (addr - 0x4000)]
        } else {
            0xff
        }
    }

    /// Only 0x2000-0x3FFF changes this core: the low seven bits select the
    /// bank, zero becoming one.
    pub open spec fn spec_write(self, addr: u16, val: u8) -> MBC3 {
        if 0x2000 <= addr < 0x4000 {
            MBC3 { bank: if val % 128 == 0 { 1 } else { (val % 128) as u8 }, ..self }
        } else {
            self
        }
    }

    pub fn new(rom: Vec<u8>, num_banks: u16) -> (r: MBC3)
        requires
            1 <= num_banks <= 512,
            rom.len() >= num_banks * ROM_BANK,
        ensures
            r.wf(),
            r.rom@ == rom@ && r.num_banks == num_banks && r.bank == 1,
    {
        MBC3 { rom, num_banks, bank: 1 }
    }

    pub fn read(&self, addr: u16) -> (r: u8)
        requires
            self.wf(),
        ensures
            r == self.spec_read(addr),
    {
        if addr < 0x4000 {
            self.rom[addr as usize]
        } else if addr < 0x8000 {
            let bank = self.bank as usize % self.num_banks as usize;
            proof {
                assert(bank * ROM_BANK + (addr - 0x4000) < self.num_banks * ROM_BANK)
                    by (nonlinear_arith)
                    requires
                        bank < self.num_banks,
                        addr - 0x4000 < 0x4000,
                ;
            }
            self.rom[bank * ROM_BANK + (addr as usize - 0x4000)]
        } else {
            0xff
        }
    }

    pub fn write(&mut self, addr: u16, val: u8)
        requires
            old(self).wf(),
        ensures
            final(self).wf(),
            *final(self) == old(self).spec_write(addr, val),
    {
        if 0x2000 <= addr && addr < 0x4000 {
            let v = val % 128;
            self.bank = if v == 0 { 1 } else { v };
        }
    }
}

/// The clock's time: seconds, minutes, hours and a nine-bit day counter.
#[derive(Copy, Clone, PartialEq, Eq, Structural)]
pub struct RtcState {
    pub seconds: u8,
    pub minutes: u8,
    pub hours: u8,
    pub days: u16,
}

impl RtcState {
    pub open spec fn wf(&self) -> bool {
        self.seconds < 64 && self.minutes < 64 && self.hours < 32 && self.days < 512
    }

    /// The time one second later, and whether the day counter wrapped.
    pub open spec fn next_second(self) -> (RtcState, bool) {
        let s = (self.seconds + 1) % 64;
        if s != 60 {
            (RtcState { seconds: s as u8, ..self }, false)
        } else {
            let m = (self.minutes + 1) % 64;
            if m != 60 {
                (RtcState { seconds: 0, minutes: m as u8, ..self }, false)
            } else {
                let h = (self.hours + 1) % 32;
                if h != 24 {
                    (RtcState { seconds: 0, minutes: 0, hours: h as u8, ..self }, false)
                } else if self.days + 1 != 512 {
                    (RtcState { seconds: 0, minutes: 0, hours: 0, days: (self.days + 1) as u16 }, false)
                } else {
                    (RtcState { seconds: 0, minutes: 0, hours: 0, days: 0 }, true)
                }
            }
        }
    }

    /// The five bytes of a save: seconds, minutes, hours, days low, days high.
    pub open spec fn spec_bytes(&self) -> Seq<u8> {
        seq![self.seconds, self.minutes, self.hours, (self.days % 256) as u8, (self.days / 256) as u8]
    }

    /// The state that five saved bytes describe, each field cut to its width.
    pub open spec fn spec_from_bytes(b: Seq<u8>) -> RtcState {
        RtcState {
            seconds: (b[0] % 64) as u8,
            minutes: (b[1] % 64) as u8,
            hours: (b[2] % 32) as u8,
            days: (b[3] + (b[4] % 2) * 256) as u16,
        }
    }

    /// The state saved in `b[at..at + 5]`.
    pub fn from_bytes(b: &[u8], at: usize) -> (r: RtcState)
        requires
            at + 5 <= b.len(),
        ensures
            r == Self::spec_from_bytes(b@.subrange(at as int, at + 5)),
            r.wf(),
    {
        RtcState {
            seconds: b[at] % 64,
            minutes: b[at + 1] % 64,
            hours: b[at + 2] % 32,
            days: b[at + 3] as u16 + (b[at + 4] % 2) as u16 * 256,
        }
    }

    pub fn as_bytes(&self) -> (r: Vec<u8>)
        requires
            self.wf(),
        ensures
            r@ == self.spec_bytes(),
    {
        let r = vec![self.seconds, self.minutes, self.hours, (self.days % 256) as u8, (self.days / 256) as u8];
        assert(r@ =~= self.spec_bytes());
        r
    }
}

/// Reading a saved state back gives the same state.
pub proof fn lemma_rtc_bytes_round_trip(s: RtcState)
    requires
        s.wf(),
    ensures
        RtcState::spec_from_bytes(s.spec_bytes()) == s,
{
}

pub struct Rtc {
    /// A zero was written to the latch register; a one now latches.
    pub prepare_latch: bool,
    /// The day counter overflowed.
    pub carry: bool,
    pub halted: bool,
    /// Clocks within the current 1/32768 s tick, in steps of 4.
    pub cycles: u8,
    /// Ticks within the current second.
    pub ticks: u16,
    pub internal_state: RtcState,
    /// The snapshot that reads see.
    pub latched_state: RtcState,
}

impl Rtc {
    pub open spec fn wf(&self) -> bool {
        &&& self.cycles < 128 && self.cycles % 4 == 0
        &&& self.ticks < 32768
        &&& self.internal_state.wf()
        &&& self.latched_state.wf()
    }

    /// The byte that clock register `reg` (0x08-0x0C) reads from the snapshot.
    pub open spec fn spec_read(&self, reg: u8) -> u8 {
        if reg == 0x08 {
            self.latched_state.seconds
        } else if reg == 0x09 {
            self.latched_state.minutes
        } else if reg == 0x0a {
            self.latched_state.hours
        } else if reg == 0x0b {
            (self.latched_state.days % 256) as u8
        } else {
            ((if self.carry { 128int } else { 0 }) + (if self.halted { 64int } else { 0 }) + self.latched_state.days
                / 256) as u8
        }
    }

    /// The state after a write of `val` to clock register `reg`: the field is
    /// set in the snapshot, which then becomes the running time, and the
    /// sub-second divider restarts.
    pub open spec fn spec_write(self, reg: u8, val: u8) -> Rtc {
        let l = self.latched_state;
        let latched = if reg == 0x08 {
            RtcState { seconds: (val % 64) as u8, ..l }
        } else if reg == 0x09 {
            RtcState { minutes: (val % 64) as u8, ..l }
        } else if reg == 0x0a {
            RtcState { hours: (val % 32) as u8, ..l }
        } else if reg == 0x0b {
            RtcState { days: ((l.days / 256) * 256 + val) as u16, ..l }
        } else {
            RtcState { days: (l.days % 256 + (val % 2) * 256) as u16, ..l }
        };
        Rtc {
            cycles: 0,
            ticks: 0,
            halted: if reg == 0x0c { (val / 64) % 2 == 1 } else { self.halted },
            carry: if reg == 0x0c { (val / 128) % 2 == 1 } else { self.carry },
            latched_state: latched,
            internal_state: latched,
            ..self
        }
    }

    /// The state after a write of `val` to the latch register: a 0 then a 1
    /// copies the running time into the snapshot.
    pub open spec fn spec_latch(self, val: u8) -> Rtc {
        if val == 0 && !self.prepare_latch {
            Rtc { prepare_latch: true, ..self }
        } else if val == 1 && self.prepare_latch {
            Rtc { prepare_latch: false, latched_state: self.internal_state, ..self }
        } else {
            self
        }
    }

    /// The state one machine cycle (four clocks) later.
    pub open spec fn spec_increment(self) -> Rtc {
        if self.halted {
            self
        } else {
            let c = self.cycles + 4;
            let t: int = if c == 128 { self.ticks + 1 } else { self.ticks as int };
            let cycles = if c == 128 { 0u8 } else { c as u8 };
            if t == 32768 {
                let (next, wrapped) = self.internal_state.next_second();
                Rtc { cycles, ticks: 0, internal_state: next, carry: self.carry || wrapped, ..self }
            } else {
                Rtc { cycles, ticks: t as u16, ..self }
            }
        }
    }

    /// A running clock at zero.
    pub open spec fn spec_new() -> Rtc {
        Rtc {
            prepare_latch: false,
            carry: false,
            halted: false,
            cycles: 0,
            ticks: 0,
            internal_state: RtcState { seconds: 0, minutes: 0, hours: 0, days: 0 },
            latched_state: RtcState { seconds: 0, minutes: 0, hours: 0, days: 0 },
        }
    }

    pub fn new() -> (r: Rtc)
        ensures
            r.wf(),
            r == Self::spec_new(),
    {
        let zero = RtcState { seconds: 0, minutes: 0, hours: 0, days: 0 };
        Rtc {
            prepare_latch: false,
            carry: false,
            halted: false,
            cycles: 0,
            ticks: 0,
            internal_state: zero,
            latched_state: zero,
        }
    }

    pub fn read(&self, register: u8) -> (r: u8)
        requires
            self.wf(),
            0x08 <= register <= 0x0c,
        ensures
            r == self.spec_read(register),
    {
        match register {
            0x08 => self.latched_state.seconds,
            0x09 => self.latched_state.minutes,
            0x0a => self.latched_state.hours,
            0x0b => (self.latched_state.days % 256) as u8,
            _ => (if self.carry { 128u8 } else { 0 }) + (if self.halted { 64u8 } else { 0 }) + (
            self.latched_state.days / 256) as u8,
        }
    }

    pub fn write(&mut self, register: u8, val: u8)
        requires
            old(self).wf(),
            0x08 <= register <= 0x0c,
        ensures
            final(self).wf(),
            *final(self) == old(self).spec_write(register, val),
    {
        self.cycles = 0;
        self.ticks = 0;
        match register {
            0x08 => self.latched_state.seconds = val % 64,
            0x09 => self.latched_state.minutes = val % 64,
            0x0a => self.latched_state.hours = val % 32,
            0x0b => self.latched_state.days = (self.latched_state.days / 256) * 256 + val as u16,
            _ => {
                self.latched_state.days = self.latched_state.days % 256 + (val % 2) as u16 * 256;
                self.halted = (val / 64) % 2 == 1;
                self.carry = (val / 128) % 2 == 1;
            },
        }
        self.internal_state = self.latched_state;
    }

    pub fn latch(&mut self, val: u8)
        requires
            old(self).wf(),
        ensures
            final(self).wf(),
            *final(self) == old(self).spec_latch(val),
    {
        if val == 0 && !self.prepare_latch {
            self.prepare_latch = true;
        } else if val == 1 && self.prepare_latch {
            self.prepare_latch = false;
            self.latched_state = self.internal_state;
        }
    }

    /// Advances the clock by one machine cycle unless it is halted.
    pub fn increment(&mut self)
        requires
            old(self).wf(),
        ensures
            final(self).wf(),
            *final(self) == old(self).spec_increment(),
    {
        if !self.halted {
            self.cycles = self.cycles + 4;
            if self.cycles == 128 {
                self.cycles = 0;
                self.ticks = self.ticks + 1;
            }
            if self.ticks == 32768 {
                self.ticks = 0;
                let mut s = self.internal_state;
                s.seconds = (s.seconds + 1) % 64;
                if s.seconds == 60 {
                    s.seconds = 0;
                    s.minutes = (s.minutes + 1) % 64;
                    if s.minutes == 60 {
                        s.minutes = 0;
                        s.hours = (s.hours + 1) % 32;
                        if s.hours == 24 {
                            s.hours = 0;
                            s.days = s.days + 1;
                            if s.days == 512 {
                                s.days = 0;
                                self.carry = true;
                            }
                        }
                    }
                }
                self.internal_state = s;
            }
        }
    }
}

/// Index in RAM of `addr` (0xA000-0xBFFF) within RAM bank `register`.
pub open spec fn ram_slot(register: u8, addr: u16) -> int {
    register * RAM_BANK + (addr - 0xa000)
}

pub struct MBC3Ram {
    pub mbc3: MBC3,
    pub ram: Vec<u8>,
    /// The RAM bank (0-3) that 0xA000-0xBFFF shows.
    pub register: u8,
    pub ram_enabled: bool,
}

impl MBC3Ram {
    pub open spec fn wf(&self) -> bool {
        self.mbc3.wf() && self.ram.len() <= 16 * RAM_BANK
    }

    pub open spec fn reads_ram(&self, addr: u16) -> bool {
        0xa000 <= addr < 0xc000 && self.ram_enabled && self.register < 4 && ram_slot(
            self.register,
            addr,
        ) < self.ram.len()
    }

    pub open spec fn spec_read(&self, addr: u16) -> u8 {
        if addr < 0x8000 {
            self.mbc3.spec_read(addr)
        } else if self.reads_ram(addr) {
            self.ram@[ram_slot(self.register, addr)]
        } else {
            0xff
        }
    }

    pub open spec fn wrote(&self, pre: &MBC3Ram, addr: u16, val: u8) -> bool {
        &&& self.mbc3 == if addr < 0x8000 { pre.mbc3.spec_write(addr, val) } else { pre.mbc3 }
        &&& self.ram_enabled == if addr < 0x2000 { val % 16 == 0xa } else { pre.ram_enabled }
        &&& self.register == if 0x4000 <= addr < 0x6000 { val } else { pre.register }
        &&& self.ram@ == if pre.reads_ram(addr) {
            pre.ram@.update(ram_slot(pre.register, addr), val)
        } else {
            pre.ram@
        }
    }

    pub fn new(rom: Vec<u8>, num_banks: u16, ram_size: usize) -> (r: MBC3Ram)
        requires
            1 <= num_banks <= 512,
            rom.len() >= num_banks * ROM_BANK,
            ram_size <= 16 * RAM_BANK,
        ensures
            r.wf(),
            r.mbc3.rom@ == rom@ && r.mbc3.num_banks == num_banks && r.mbc3.bank == 1,
            r.ram@ == Seq::new(ram_size as nat, |i: int| 0u8),
            r.register == 0 && !r.ram_enabled,
    {
        MBC3Ram { mbc3: MBC3::new(rom, num_banks), ram: filled(ram_size, 0), register: 0, ram_enabled: false }
    }

    pub fn read(&self, addr: u16) -> (r: u8)
        requires
            self.wf(),
        ensures
            r == self.spec_read(addr),
    {
        if addr < 0x8000 {
            self.mbc3.read(addr)
        } else if 0xa000 <= addr && addr < 0xc000 && self.ram_enabled && self.register < 4 {
            let idx = self.register as usize * RAM_BANK + (addr as usize - 0xa000);
            if idx < self.ram.len() {
                self.ram[idx]
            } else {
                0xff
            }
        } else {
            0xff
        }
    }

    pub fn write(&mut self, addr: u16, val: u8)
        requires
            old(self).wf(),
        ensures
            final(self).wf(),
            final(self).wrote(old(self), addr, val),
    {
        if addr < 0x2000 {
            self.ram_enabled = val % 16 == 0xa;
        } else if addr < 0x4000 {
            self.mbc3.write(addr, val);
        } else if addr < 0x6000 {
            self.register = val;
        } else if 0xa000 <= addr && addr < 0xc000 && self.ram_enabled && self.register < 4 {
            let idx = self.register as usize * RAM_BANK + (addr as usize - 0xa000);
            if idx < self.ram.len() {
                self.ram.set(idx, val);
            }
        }
    }
}

/// Whether `register` selects a clock register.
pub open spec fn is_rtc_register(register: u8) -> bool {
    0x08 <= register <= 0x0c
}

pub struct MBC3Rtc {
    pub mbc3: MBC3,
    pub rtc: Rtc,
    /// The clock register (0x08-0x0C) that 0xA000-0xBFFF shows.
    pub rtc_register: u8,
    pub ram_enabled: bool,
}

impl MBC3Rtc {
    pub open spec fn wf(&self) -> bool {
        self.mbc3.wf() && self.rtc.wf()
    }

    pub open spec fn spec_read(&self, addr: u16) -> u8 {
        if addr < 0x8000 {
            self.mbc3.spec_read(addr)
        } else if 0xa000 <= addr < 0xc000 && self.ram_enabled && is_rtc_register(self.rtc_register) {
            self.rtc.spec_read(self.rtc_register)
        } else {
            0xff
        }
    }

    pub open spec fn spec_write(self, addr: u16, val: u8) -> MBC3Rtc {
        if addr < 0x2000 {
            MBC3Rtc { ram_enabled: val % 16 == 0xa, ..self }
        } else if addr < 0x4000 {
            MBC3Rtc { mbc3: self.mbc3.spec_write(addr, val), ..self }
        } else if addr < 0x6000 {
            MBC3Rtc { rtc_register: val, ..self }
        } else if addr < 0x8000 {
            MBC3Rtc { rtc: self.rtc.spec_latch(val), ..self }
        } else if 0xa000 <= addr < 0xc000 && self.ram_enabled && is_rtc_register(self.rtc_register) {
            MBC3Rtc { rtc: self.rtc.spec_write(self.rtc_register, val), ..self }
        } else {
            self
        }
    }

    pub fn new(rom: Vec<u8>, num_banks: u16) -> (r: MBC3Rtc)
        requires
            1 <= num_banks <= 512,
            rom.len() >= num_banks * ROM_BANK,
        ensures
            r.wf(),
            r.mbc3.rom@ == rom@ && r.mbc3.num_banks == num_banks && r.mbc3.bank == 1,
            r.rtc == Rtc::spec_new(),
            r.rtc_register == 0 && !r.ram_enabled,
    {
        MBC3Rtc { mbc3: MBC3::new(rom, num_banks), rtc: Rtc::new(), rtc_register: 0, ram_enabled: false }
    }

    pub fn read(&self, addr: u16) -> (r: u8)
        requires
            self.wf(),
        ensures
            r == self.spec_read(addr),
    {
        if addr < 0x8000 {
            self.mbc3.read(addr)
        } else if 0xa000 <= addr && addr < 0xc000 && self.ram_enabled && 0x08 <= self.rtc_register
            && self.rtc_register <= 0x0c {
            self.rtc.read(self.rtc_register)
        } else {
            0xff
        }
    }

    pub fn write(&mut self, addr: u16, val: u8)
        requires
            old(self).wf(),
        ensures
            final(self).wf(),
            *final(self) == old(self).spec_write(addr, val),
    {
        if addr < 0x2000 {
            self.ram_enabled = val % 16 == 0xa;
        } else if addr < 0x4000 {
            self.mbc3.write(addr, val);
        } else if addr < 0x6000 {
            self.rtc_register = val;
        } else if addr < 0x8000 {
            self.rtc.latch(val);
        } else if 0xa000 <= addr && addr < 0xc000 && self.ram_enabled && 0x08 <= self.rtc_register
            && self.rtc_register <= 0x0c {
            self.rtc.write(self.rtc_register, val);
        }
    }

    pub fn increment_rtc(&mut self)
        requires
            old(self).wf(),
        ensures
            final(self).wf(),
            *final(self) == (MBC3Rtc { rtc: old(self).rtc.spec_increment(), ..*old(self) }),
    {
        self.rtc.increment();
    }
}

pub struct MBC3RamRtc {
    pub mbc3: MBC3,
    pub ram: Vec<u8>,
    pub rtc: Rtc,
    /// A RAM bank (0-3) or a clock register (0x08-0x0C).
    pub register: u8,
    pub ram_enabled: bool,
}

impl MBC3RamRtc {
    pub open spec fn wf(&self) -> bool {
        self.mbc3.wf() && self.rtc.wf() && self.ram.len() <= 16 * RAM_BANK
    }

    pub open spec fn reads_ram(&self, addr: u16) -> bool {
        0xa000 <= addr < 0xc000 && self.ram_enabled && self.register < 4 && ram_slot(
            self.register,
            addr,
        ) < self.ram.len()
    }

    pub open spec fn reads_rtc(&self, addr: u16) -> bool {
        0xa000 <= addr < 0xc000 && self.ram_enabled && is_rtc_register(self.register)
    }

    pub open spec fn spec_read(&self, addr: u16) -> u8 {
        if addr < 0x8000 {
            self.mbc3.spec_read(addr)
        } else if self.reads_ram(addr) {
            self.ram@[ram_slot(self.register, addr)]
        } else if self.reads_rtc(addr) {
            self.rtc.spec_read(self.register)
        } else {
            0xff
        }
    }

    pub open spec fn wrote(&self, pre: &MBC3RamRtc, addr: u16, val: u8) -> bool {
        &&& self.mbc3 == if addr < 0x8000 { pre.mbc3.spec_write(addr, val) } else { pre.mbc3 }
        &&& self.ram_enabled == if addr < 0x2000 { val % 16 == 0xa } else { pre.ram_enabled }
        &&& self.register == if 0x4000 <= addr < 0x6000 { val } else { pre.register }
        &&& self.rtc == if 0x6000 <= addr < 0x8000 {
            pre.rtc.spec_latch(val)
        } else if pre.reads_rtc(addr) {
            pre.rtc.spec_write(pre.register, val)
        } else {
            pre.rtc
        }
        &&& self.ram@ == if pre.reads_ram(addr) {
            pre.ram@.update(ram_slot(pre.register, addr), val)
        } else {
            pre.ram@
        }
    }

    pub fn new(rom: Vec<u8>, num_banks: u16, ram_size: usize) -> (r: MBC3RamRtc)
        requires
            1 <= num_banks <= 512,
            rom.len() >= num_banks * ROM_BANK,
            ram_size <= 16 * RAM_BANK,
        ensures
            r.wf(),
            r.mbc3.rom@ == rom@ && r.mbc3.num_banks == num_banks && r.mbc3.bank == 1,
            r.ram@ == Seq::new(ram_size as nat, |i: int| 0u8),
            r.rtc == Rtc::spec_new(),
            r.register == 0 && !r.ram_enabled,
    {
        MBC3RamRtc {
            mbc3: MBC3::new(rom, num_banks),
            ram: filled(ram_size, 0),
            rtc: Rtc::new(),
            register: 0,
            ram_enabled: false,
        }
    }

    pub fn read(&self, addr: u16) -> (r: u8)
        requires
            self.wf(),
        ensures
            r == self.spec_read(addr),
    {
        if addr < 0x8000 {
            self.mbc3.read(addr)
        } else if 0xa000 <= addr && addr < 0xc000 && self.ram_enabled {
            if self.register < 4 {
                let idx = self.register as usize * RAM_BANK + (addr as usize - 0xa000);
                if idx < self.ram.len() {
                    self.ram[idx]
                } else {
                    0xff
                }
            } else if 0x08 <= self.register && self.register <= 0x0c {
                self.rtc.read(self.register)
            } else {
                0xff
            }
        } else {
            0xff
        }
    }

    pub fn write(&mut self, addr: u16, val: u8)
        requires
            old(self).wf(),
        ensures
            final(self).wf(),
            final(self).wrote(old(self), addr, val),
    {
        if addr < 0x2000 {
            self.ram_enabled = val % 16 == 0xa;
        } else if addr < 0x4000 {
            self.mbc3.write(addr, val);
        } else if addr < 0x6000 {
            self.register = val;
        } else if addr < 0x8000 {
            self.rtc.latch(val);
        } else if 0xa000 <= addr && addr < 0xc000 && self.ram_enabled {
            if self.register < 4 {
                let idx = self.register as usize * RAM_BANK + (addr as usize - 0xa000);
                if idx < self.ram.len() {
                    self.ram.set(idx, val);
                }
            } else if 0x08 <= self.register && self.register <= 0x0c {
                self.rtc.write(self.register, val);
            }
        }
    }

    pub fn increment_rtc(&mut self)
        requires
            old(self).wf(),
        ensures
            final(self).wf(),
            final(self).rtc == old(self).rtc.spec_increment(),
            final(self).mbc3 == old(self).mbc3 && final(self).ram@ == old(self).ram@,
            final(self).register == old(self).register,
            final(self).ram_enabled == old(self).ram_enabled,
    {
        self.rtc.increment();
    }
}

} // verus!
