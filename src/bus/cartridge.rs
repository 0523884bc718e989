//! Cartridges: header parsing and dispatch to the mapper.
use vstd::prelude::*;

pub mod mbc1;
pub mod mbc2;
pub mod mbc3;
pub mod mbc5;

verus! {

/// A buffer of `len` copies of `byte`.
pub fn filled(len: usize, byte: u8) -> (r: Vec<u8>)
    ensures
        r@ == Seq::new(len as nat, |i: int| byte),
{
    let mut v: Vec<u8> = Vec::new();
    while v.len() < len
        invariant
            v.len() <= len,
            forall|i: int| 0 <= i < v.len() ==> v@[i] == byte,
        decreases len - v.len(),
    {
        v.push(byte);
    }
    assert(v@ =~= Seq::new(len as nat, |i: int| byte));
    v
}

/// Copies `data[0..dst.len()]` over `dst`.
pub fn copy_prefix(dst: &mut Vec<u8>, data: &[u8])
    requires
        data.len() >= old(dst).len(),
    ensures
        final(dst)@ == data@.subrange(0, old(dst).len() as int),
{
    let n = dst.len();
    let mut i: usize = 0;
    while i < n
        invariant
            n == dst.len(),
            n <= data.len(),
            i <= n,
            forall|j: int| 0 <= j < i ==> dst@[j] == data@[j],
        decreases n - i,
    {
        dst.set(i, data[i]);
        i = i + 1;
    }
    assert(dst@ =~= data@.subrange(0, n as int));
}

} // verus!

use mbc1::{MBC1, MBC1Ram, ROM_BANK};
use mbc2::{MBC2, MBC2_RAM};
use mbc3::{MBC3, MBC3Ram, MBC3RamRtc, MBC3Rtc, Rtc, RtcState};
use mbc5::{MBC5, MBC5Ram};

verus! {

/// A 32 KiB ROM without banking.
pub struct NoMapper {
    pub rom: Vec<u8>,
}

/// The mapper chip of a cartridge, with its state.
pub enum Mapper {
    NoMapper(NoMapper),
    MBC1(MBC1),
    MBC1Ram(MBC1Ram),
    MBC2(MBC2),
    MBC3(MBC3),
    MBC3Ram(MBC3Ram),
    MBC3Rtc(MBC3Rtc),
    MBC3RamRtc(MBC3RamRtc),
    MBC5(MBC5),
    MBC5Ram(MBC5Ram),
}

/// Why a ROM image cannot be loaded.
#[derive(Copy, Clone, PartialEq, Eq, Structural, Debug)]
pub enum CartridgeError {
    /// The image is shorter than its header or than the banks it declares.
    TooShort,
    /// The ROM-size byte (0x148) is above 8.
    InvalidRomSize(u8),
    /// The RAM-size byte (0x149) is above 5.
    InvalidRamSize(u8),
    /// The cartridge-type byte (0x147) names no supported mapper.
    UnknownMapper(u8),
}

/// Why a save blob cannot be loaded.
#[derive(Copy, Clone, PartialEq, Eq, Structural, Debug)]
pub enum SaveError {
    /// The blob holds fewer bytes than the cartridge saves.
    TooShort,
}

/// The cartridge-type codes that have a mapper.
pub open spec fn is_known_mapper(code: u8) -> bool {
    code == 0x00 || (0x01 <= code <= 0x03) || code == 0x05 || code == 0x06 || (0x0f <= code
        <= 0x13) || (0x19 <= code <= 0x1b)
}

/// The number of 16 KiB banks for a ROM-size code: `2 << code`.
pub open spec fn rom_banks(code: u8) -> int
    decreases code,
{
    if code == 0 { 2 } else { 2 * rom_banks((code - 1) as u8) }
}

/// The external RAM in KiB for a RAM-size code.
pub open spec fn ram_kib(code: u8) -> int {
    if code == 0 { 0 }
    else if code == 1 { 2 }
    else if code == 2 { 8 }
    else if code == 3 { 32 }
    else if code == 4 { 128 }
    else { 16 }
}

/// What is wrong with a ROM image's header, if anything.
pub open spec fn header_error(rom: Seq<u8>) -> Option<CartridgeError> {
    if rom.len() < 0x150 {
        Some(CartridgeError::TooShort)
    } else if !is_known_mapper(rom[0x147]) {
        Some(CartridgeError::UnknownMapper(rom[0x147]))
    } else if rom[0x148] > 8 {
        Some(CartridgeError::InvalidRomSize(rom[0x148]))
    } else if rom[0x149] > 5 {
        Some(CartridgeError::InvalidRamSize(rom[0x149]))
    } else if rom.len() < rom_banks(rom[0x148]) * ROM_BANK {
        Some(CartridgeError::TooShort)
    } else {
        None
    }
}

/// The length of a save for a cartridge-type code and a RAM-size code.
pub open spec fn save_len(mbc: u8, ram_code: u8) -> int {
    if mbc == 0x05 || mbc == 0x06 {
        MBC2_RAM as int
    } else if mbc == 0x0f {
        10
    } else if mbc == 0x10 {
        ram_kib(ram_code) * 1024 + 10
    } else if mbc == 0x02 || mbc == 0x03 || mbc == 0x12 || mbc == 0x13 || mbc == 0x1a || mbc
        == 0x1b {
        ram_kib(ram_code) * 1024
    } else {
        0
    }
}

fn rom_banks_of(code: u8) -> (r: u16)
    requires
        code <= 8,
    ensures
        r == rom_banks(code),
        2 <= r <= 512,
{
    proof {
        reveal_with_fuel(rom_banks, 9);
    }
    match code {
        0 => 2,
        1 => 4,
        2 => 8,
        3 => 16,
        4 => 32,
        5 => 64,
        6 => 128,
        7 => 256,
        _ => 512,
    }
}

fn ram_size_of(code: u8) -> (r: usize)
    requires
        code <= 5,
    ensures
        r == ram_kib(code) * 1024,
        r <= 16 * 0x2000,
{
    match code {
        0 => 0,
        1 => 2048,
        2 => 8192,
        3 => 32768,
        4 => 131072,
        _ => 16384,
    }
}

pub struct Cartridge {
    pub mapper: Mapper,
}

impl Cartridge {
    pub open spec fn wf(&self) -> bool {
        match self.mapper {
            Mapper::NoMapper(m) => m.rom.len() >= 0x8000,
            Mapper::MBC1(m) => m.wf(),
            Mapper::MBC1Ram(m) => m.wf(),
            Mapper::MBC2(m) => m.wf(),
            Mapper::MBC3(m) => m.wf(),
            Mapper::MBC3Ram(m) => m.wf(),
            Mapper::MBC3Rtc(m) => m.wf(),
            Mapper::MBC3RamRtc(m) => m.wf(),
            Mapper::MBC5(m) => m.wf(),
            Mapper::MBC5Ram(m) => m.wf(),
        }
    }

    /// The byte the cartridge answers at `addr` (ROM 0x0000-0x7FFF, RAM
    /// 0xA000-0xBFFF).
    pub open spec fn spec_read(&self, addr: u16) -> u8 {
        match self.mapper {
            Mapper::NoMapper(m) => if addr < 0x8000 { m.rom@[addr as int] } else { 0xff },
            Mapper::MBC1(m) => m.spec_read(addr),
            Mapper::MBC1Ram(m) => m.spec_read(addr),
            Mapper::MBC2(m) => m.spec_read(addr),
            Mapper::MBC3(m) => m.spec_read(addr),
            Mapper::MBC3Ram(m) => m.spec_read(addr),
            Mapper::MBC3Rtc(m) => m.spec_read(addr),
            Mapper::MBC3RamRtc(m) => m.spec_read(addr),
            Mapper::MBC5(m) => m.spec_read(addr),
            Mapper::MBC5Ram(m) => m.spec_read(addr),
        }
    }

    /// `self` is `pre` after a write of `val` at `addr`.
    pub open spec fn wrote(&self, pre: &Cartridge, addr: u16, val: u8) -> bool {
        match (self.mapper, pre.mapper) {
            (Mapper::NoMapper(m), Mapper::NoMapper(p)) => m == p,
            (Mapper::MBC1(m), Mapper::MBC1(p)) => m == p.spec_write(addr, val),
            (Mapper::MBC1Ram(m), Mapper::MBC1Ram(p)) => m.wrote(&p, addr, val),
            (Mapper::MBC2(m), Mapper::MBC2(p)) => m.wrote(&p, addr, val),
            (Mapper::MBC3(m), Mapper::MBC3(p)) => m == p.spec_write(addr, val),
            (Mapper::MBC3Ram(m), Mapper::MBC3Ram(p)) => m.wrote(&p, addr, val),
            (Mapper::MBC3Rtc(m), Mapper::MBC3Rtc(p)) => m == p.spec_write(addr, val),
            (Mapper::MBC3RamRtc(m), Mapper::MBC3RamRtc(p)) => m.wrote(&p, addr, val),
            (Mapper::MBC5(m), Mapper::MBC5(p)) => m == p.spec_write(addr, val),
            (Mapper::MBC5Ram(m), Mapper::MBC5Ram(p)) => m.wrote(&p, addr, val),
            _ => false,
        }
    }

    /// `self` is `pre` one machine cycle later: only a clock moves.
    pub open spec fn clocked(&self, pre: &Cartridge) -> bool {
        match (self.mapper, pre.mapper) {
            (Mapper::MBC3Rtc(m), Mapper::MBC3Rtc(p)) => m == (MBC3Rtc {
                rtc: p.rtc.spec_increment(),
                ..p
            }),
            (Mapper::MBC3RamRtc(m), Mapper::MBC3RamRtc(p)) => m.rtc == p.rtc.spec_increment()
                && m.mbc3 == p.mbc3 && m.ram@ == p.ram@ && m.register == p.register
                && m.ram_enabled == p.ram_enabled,
            _ => self == pre,
        }
    }

    /// The bytes a save holds: external RAM, then for a clock the running
    /// time and the snapshot, five bytes each.
    pub open spec fn spec_blob(&self) -> Seq<u8> {
        match self.mapper {
            Mapper::MBC1Ram(m) => m.ram@,
            Mapper::MBC2(m) => m.ram@,
            Mapper::MBC3Ram(m) => m.ram@,
            Mapper::MBC3Rtc(m) => m.rtc.internal_state.spec_bytes() + m.rtc.latched_state.spec_bytes(),
            Mapper::MBC3RamRtc(m) => m.ram@ + m.rtc.internal_state.spec_bytes()
                + m.rtc.latched_state.spec_bytes(),
            Mapper::MBC5Ram(m) => m.ram@,
            _ => Seq::empty(),
        }
    }

    /// How many RAM bytes a save starts with.
    pub open spec fn ram_len(&self) -> int {
        match self.mapper {
            Mapper::MBC1Ram(m) => m.ram.len() as int,
            Mapper::MBC2(m) => m.ram.len() as int,
            Mapper::MBC3Ram(m) => m.ram.len() as int,
            Mapper::MBC3RamRtc(m) => m.ram.len() as int,
            Mapper::MBC5Ram(m) => m.ram.len() as int,
            _ => 0,
        }
    }

    /// The length of a save.
    pub open spec fn blob_len(&self) -> int {
        match self.mapper {
            Mapper::MBC3Rtc(_) | Mapper::MBC3RamRtc(_) => self.ram_len() + 10,
            _ => self.ram_len(),
        }
    }

    /// `self` is `pre` with a save `data` loaded: RAM takes the first bytes
    /// (the built-in MBC2 RAM only their low nibbles), a clock the next ten.
    pub open spec fn loaded(&self, pre: &Cartridge, data: Seq<u8>) -> bool {
        let n = pre.ram_len();
        let ram = data.subrange(0, n);
        let internal = RtcState::spec_from_bytes(data.subrange(n, n + 5));
        let latched = RtcState::spec_from_bytes(data.subrange(n + 5, n + 10));
        match (self.mapper, pre.mapper) {
            (Mapper::MBC1Ram(m), Mapper::MBC1Ram(p)) => m.ram@ == ram && m.mbc1 == p.mbc1
                && m.ram_enabled == p.ram_enabled,
            (Mapper::MBC2(m), Mapper::MBC2(p)) => m.ram@ == Seq::new(
                n as nat,
                |i: int| (0xf0 + data[i] % 16) as u8,
            ) && m.rom == p.rom && m.num_banks == p.num_banks && m.bank == p.bank
                && m.ram_enabled == p.ram_enabled,
            (Mapper::MBC3Ram(m), Mapper::MBC3Ram(p)) => m.ram@ == ram && m.mbc3 == p.mbc3
                && m.register == p.register && m.ram_enabled == p.ram_enabled,
            (Mapper::MBC3Rtc(m), Mapper::MBC3Rtc(p)) => m == (MBC3Rtc {
                rtc: Rtc { internal_state: internal, latched_state: latched, ..p.rtc },
                ..p
            }),
            (Mapper::MBC3RamRtc(m), Mapper::MBC3RamRtc(p)) => m.ram@ == ram && m.rtc == (Rtc {
                internal_state: internal,
                latched_state: latched,
                ..p.rtc
            }) && m.mbc3 == p.mbc3 && m.register == p.register && m.ram_enabled == p.ram_enabled,
            (Mapper::MBC5Ram(m), Mapper::MBC5Ram(p)) => m.ram@ == ram && m.mbc5 == p.mbc5
                && m.ram_bank == p.ram_bank && m.ram_enabled == p.ram_enabled,
            (Mapper::NoMapper(m), Mapper::NoMapper(p)) => m == p,
            (Mapper::MBC1(m), Mapper::MBC1(p)) => m == p,
            (Mapper::MBC3(m), Mapper::MBC3(p)) => m == p,
            (Mapper::MBC5(m), Mapper::MBC5(p)) => m == p,
            _ => false,
        }
    }

    /// `self` is the fresh cartridge that the header of `rom` names: the
    /// mapper of its type code over the image, bank 1 selected, RAM of the
    /// declared size cleared and disabled, the clock at zero.
    pub open spec fn built(&self, rom: Seq<u8>) -> bool {
        let code = rom[0x147];
        let n = rom_banks(rom[0x148]);
        let ram = Seq::new((ram_kib(rom[0x149]) * 1024) as nat, |i: int| 0u8);
        match self.mapper {
            Mapper::NoMapper(m) => code == 0x00 && m.rom@ == rom,
            Mapper::MBC1(m) => code == 0x01 && m.rom@ == rom && m.num_banks == n && m.bank1 == 1
                && m.bank2 == 0 && !m.mode,
            Mapper::MBC1Ram(m) => (code == 0x02 || code == 0x03) && m.mbc1.rom@ == rom && m.mbc1.num_banks
                == n && m.mbc1.bank1 == 1 && m.mbc1.bank2 == 0 && !m.mbc1.mode && m.ram@ == ram
                && !m.ram_enabled,
            Mapper::MBC2(m) => (code == 0x05 || code == 0x06) && m.rom@ == rom && m.num_banks == n
                && m.bank == 1 && !m.ram_enabled && m.ram@ == Seq::new(MBC2_RAM as nat, |i: int| 0xf0u8),
            Mapper::MBC3(m) => code == 0x11 && m.rom@ == rom && m.num_banks == n && m.bank == 1,
            Mapper::MBC3Ram(m) => (code == 0x12 || code == 0x13) && m.mbc3.rom@ == rom && m.mbc3.num_banks
                == n && m.mbc3.bank == 1 && m.ram@ == ram && m.register == 0 && !m.ram_enabled,
            Mapper::MBC3Rtc(m) => code == 0x0f && m.mbc3.rom@ == rom && m.mbc3.num_banks == n && m.mbc3.bank
                == 1 && m.rtc == Rtc::spec_new() && m.rtc_register == 0 && !m.ram_enabled,
            Mapper::MBC3RamRtc(m) => code == 0x10 && m.mbc3.rom@ == rom && m.mbc3.num_banks == n
                && m.mbc3.bank == 1 && m.ram@ == ram && m.rtc == Rtc::spec_new() && m.register == 0
                && !m.ram_enabled,
            Mapper::MBC5(m) => code == 0x19 && m.rom@ == rom && m.num_banks == n && m.bank == 1,
            Mapper::MBC5Ram(m) => (code == 0x1a || code == 0x1b) && m.mbc5.rom@ == rom && m.mbc5.num_banks
                == n && m.mbc5.bank == 1 && m.ram@ == ram && m.ram_bank == 0 && !m.ram_enabled,
        }
    }

    /// Parses the header and builds the mapper it names. Fails exactly when
    /// `header_error` names a fault.
    pub fn new(rom: Vec<u8>) -> (r: Result<Cartridge, CartridgeError>)
        ensures
            header_error(rom@) matches Some(e) ==> r == Err::<Cartridge, CartridgeError>(e),
            header_error(rom@) is None ==> (r matches Ok(c) && c.built(rom@)),
            header_error(rom@) is None ==> (r matches Ok(c) && c.wf() && c.blob_len()
                == save_len(rom@[0x147], rom@[0x149]) && (forall|a: u16|
                a < 0x4000 ==> c.spec_read(a) == rom@[a as int])),
    {
        if rom.len() < 0x150 {
            return Err(CartridgeError::TooShort);
        }
        let mbc = rom[0x147];
        let rom_code = rom[0x148];
        let ram_code = rom[0x149];
        if !(mbc == 0x00 || (0x01 <= mbc && mbc <= 0x03) || mbc == 0x05 || mbc == 0x06 || (0x0f
            <= mbc && mbc <= 0x13) || (0x19 <= mbc && mbc <= 0x1b)) {
            return Err(CartridgeError::UnknownMapper(mbc));
        }
        if rom_code > 8 {
            return Err(CartridgeError::InvalidRomSize(rom_code));
        }
        if ram_code > 5 {
            return Err(CartridgeError::InvalidRamSize(ram_code));
        }
        let num_banks = rom_banks_of(rom_code);
        if rom.len() < num_banks as usize * ROM_BANK {
            return Err(CartridgeError::TooShort);
        }
        let ram_size = ram_size_of(ram_code);
        let mapper = match mbc {
            0x00 => Mapper::NoMapper(NoMapper { rom }),
            0x01 => Mapper::MBC1(MBC1::new(rom, num_banks)),
            0x02 | 0x03 => Mapper::MBC1Ram(MBC1Ram::new(rom, num_banks, ram_size)),
            0x05 | 0x06 => Mapper::MBC2(MBC2::new(rom, num_banks)),
            0x0f => Mapper::MBC3Rtc(MBC3Rtc::new(rom, num_banks)),
            0x10 => Mapper::MBC3RamRtc(MBC3RamRtc::new(rom, num_banks, ram_size)),
            0x11 => Mapper::MBC3(MBC3::new(rom, num_banks)),
            0x12 | 0x13 => Mapper::MBC3Ram(MBC3Ram::new(rom, num_banks, ram_size)),
            0x19 => Mapper::MBC5(MBC5::new(rom, num_banks)),
            _ => Mapper::MBC5Ram(MBC5Ram::new(rom, num_banks, ram_size)),
        };
        Ok(Cartridge { mapper })
    }

    pub fn read(&self, addr: u16) -> (r: u8)
        requires
            self.wf(),
        ensures
            r == self.spec_read(addr),
    {
        match &self.mapper {
            Mapper::NoMapper(m) => if addr < 0x8000 {
                m.rom[addr as usize]
            } else {
                0xff
            },
            Mapper::MBC1(m) => m.read(addr),
            Mapper::MBC1Ram(m) => m.read(addr),
            Mapper::MBC2(m) => m.read(addr),
            Mapper::MBC3(m) => m.read(addr),
            Mapper::MBC3Ram(m) => m.read(addr),
            Mapper::MBC3Rtc(m) => m.read(addr),
            Mapper::MBC3RamRtc(m) => m.read(addr),
            Mapper::MBC5(m) => m.read(addr),
            Mapper::MBC5Ram(m) => m.read(addr),
        }
    }

    pub fn write(&mut self, addr: u16, val: u8)
        requires
            old(self).wf(),
        ensures
            final(self).wf(),
            final(self).wrote(old(self), addr, val),
    {
        match &mut self.mapper {
            Mapper::NoMapper(_) => {},
            Mapper::MBC1(m) => m.write(addr, val),
            Mapper::MBC1Ram(m) => m.write(addr, val),
            Mapper::MBC2(m) => m.write(addr, val),
            Mapper::MBC3(m) => m.write(addr, val),
            Mapper::MBC3Ram(m) => m.write(addr, val),
            Mapper::MBC3Rtc(m) => m.write(addr, val),
            Mapper::MBC3RamRtc(m) => m.write(addr, val),
            Mapper::MBC5(m) => m.write(addr, val),
            Mapper::MBC5Ram(m) => m.write(addr, val),
        }
    }

    /// One machine cycle of the cartridge's clock, if it has one.
    pub fn increment_rtc(&mut self)
        requires
            old(self).wf(),
        ensures
            final(self).wf(),
            final(self).clocked(old(self)),
    {
        match &mut self.mapper {
            Mapper::MBC3Rtc(m) => m.increment_rtc(),
            Mapper::MBC3RamRtc(m) => m.increment_rtc(),
            _ => {},
        }
    }

    /// The battery-backed state as bytes.
    pub fn save_external_ram(&self) -> (r: Vec<u8>)
        requires
            self.wf(),
        ensures
            r@ == self.spec_blob(),
            r@.len() == self.blob_len(),
    {
        match &self.mapper {
            Mapper::MBC1Ram(m) => m.ram.clone(),
            Mapper::MBC2(m) => m.ram.clone(),
            Mapper::MBC3Ram(m) => m.ram.clone(),
            Mapper::MBC3Rtc(m) => {
                let mut v = m.rtc.internal_state.as_bytes();
                let mut l = m.rtc.latched_state.as_bytes();
                v.append(&mut l);
                v
            },
            Mapper::MBC3RamRtc(m) => {
                let mut v = m.ram.clone();
                let mut i = m.rtc.internal_state.as_bytes();
                let mut l = m.rtc.latched_state.as_bytes();
                v.append(&mut i);
                v.append(&mut l);
                v
            },
            Mapper::MBC5Ram(m) => m.ram.clone(),
            _ => Vec::new(),
        }
    }

    /// Restores the battery-backed state from a save. Fails, changing
    /// nothing, when `data` is shorter than a save; extra bytes are ignored.
    pub fn load_external_ram(&mut self, data: &[u8]) -> (r: Result<(), SaveError>)
        requires
            old(self).wf(),
        ensures
            final(self).wf(),
            data.len() < old(self).blob_len() ==> r == Err::<(), SaveError>(SaveError::TooShort)
                && *final(self) == *old(self),
            data.len() >= old(self).blob_len() ==> r is Ok && final(self).loaded(old(self), data@),
    {
        if data.len() < self.blob_length() {
            return Err(SaveError::TooShort);
        }
        match &mut self.mapper {
            Mapper::MBC1Ram(m) => copy_prefix(&mut m.ram, data),
            Mapper::MBC2(m) => m.load_ram(data),
            Mapper::MBC3Ram(m) => copy_prefix(&mut m.ram, data),
            Mapper::MBC3Rtc(m) => {
                m.rtc.internal_state = RtcState::from_bytes(data, 0);
                m.rtc.latched_state = RtcState::from_bytes(data, 5);
            },
            Mapper::MBC3RamRtc(m) => {
                let n = m.ram.len();
                copy_prefix(&mut m.ram, data);
                m.rtc.internal_state = RtcState::from_bytes(data, n);
                m.rtc.latched_state = RtcState::from_bytes(data, n + 5);
            },
            Mapper::MBC5Ram(m) => copy_prefix(&mut m.ram, data),
            _ => {},
        }
        Ok(())
    }

    fn blob_length(&self) -> (r: usize)
        requires
            self.wf(),
        ensures
            r == self.blob_len(),
    {
        match &self.mapper {
            Mapper::MBC1Ram(m) => m.ram.len(),
            Mapper::MBC2(m) => m.ram.len(),
            Mapper::MBC3Ram(m) => m.ram.len(),
            Mapper::MBC3Rtc(_) => 10,
            Mapper::MBC3RamRtc(m) => m.ram.len() + 10,
            Mapper::MBC5Ram(m) => m.ram.len(),
            _ => 0,
        }
    }
}

/// Loading a cartridge's own save gives back the same save.
pub proof fn lemma_save_load_round_trip(pre: Cartridge, post: Cartridge)
    requires
        pre.wf(),
        post.loaded(&pre, pre.spec_blob()),
    ensures
        post.spec_blob() == pre.spec_blob(),
{
    let b = pre.spec_blob();
    let n = pre.ram_len();
    match (post.mapper, pre.mapper) {
        (Mapper::MBC2(m), Mapper::MBC2(p)) => {
            assert(m.ram@ =~= p.ram@);
        },
        (Mapper::MBC1Ram(m), Mapper::MBC1Ram(p)) => {
            assert(m.ram@ =~= p.ram@);
        },
        (Mapper::MBC3Ram(m), Mapper::MBC3Ram(p)) => {
            assert(m.ram@ =~= p.ram@);
        },
        (Mapper::MBC5Ram(m), Mapper::MBC5Ram(p)) => {
            assert(m.ram@ =~= p.ram@);
        },
        (Mapper::MBC3Rtc(m), Mapper::MBC3Rtc(p)) => {
            assert(b.subrange(0, 5) =~= p.rtc.internal_state.spec_bytes());
            assert(b.subrange(5, 10) =~= p.rtc.latched_state.spec_bytes());
            mbc3::lemma_rtc_bytes_round_trip(p.rtc.internal_state);
            mbc3::lemma_rtc_bytes_round_trip(p.rtc.latched_state);
        },
        (Mapper::MBC3RamRtc(m), Mapper::MBC3RamRtc(p)) => {
            assert(b.subrange(0, n) =~= p.ram@);
            assert(b.subrange(n, n + 5) =~= p.rtc.internal_state.spec_bytes());
            assert(b.subrange(n + 5, n + 10) =~= p.rtc.latched_state.spec_bytes());
            mbc3::lemma_rtc_bytes_round_trip(p.rtc.internal_state);
            mbc3::lemma_rtc_bytes_round_trip(p.rtc.latched_state);
        },
        _ => {},
    }
}

} // verus!
