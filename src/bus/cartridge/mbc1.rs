//! The MBC1 mapper, with and without external RAM.
use vstd::prelude::*;
use super::filled;

verus! {

/// Size of one ROM bank.
pub const ROM_BANK: usize = 0x4000;

/// Size of one external RAM bank.
pub const RAM_BANK: usize = 0x2000;

pub struct MBC1 {
    pub rom: Vec<u8>,
    /// The number of 16 KiB banks that the header declares.
    pub num_banks: u16,
    /// Five-bit bank register, never zero.
    pub bank1: u8,
    /// Two-bit bank register.
    pub bank2: u8,
    /// Banking mode: `true` applies `bank2` to the low ROM area and to RAM.
    pub mode: bool,
}

impl MBC1 {
    pub open spec fn wf(&self) -> bool {
        &&& 1 <= self.num_banks <= 512
        &&& self.rom.len() >= self.num_banks * ROM_BANK
        &&& 1 <= self.bank1 < 32
        &&& self.bank2 < 4
    }

    /// The bank mapped at 0x0000-0x3FFF.
    pub open spec fn spec_lo_bank(&self) -> int {
        if self.mode { (self.bank2 * 32) % (self.num_banks as int) } else { 0 }
    }

    /// The bank mapped at 0x4000-0x7FFF: `(bank2 << 5) | bank1` modulo the
    /// number of banks.
    pub open spec fn spec_hi_bank(&self) -> int {
        (self.bank2 * 32 + self.bank1) % (self.num_banks as int)
    }

    /// The byte read at `addr`; outside the ROM area the bus reads 0xFF.
    pub open spec fn spec_read(&self, addr: u16) -> u8 {
        if addr < 0x4000 {
            self.rom@[self.spec_lo_bank() * ROM_BANK + addr]
        } else if addr < 0x8000 {
            self.rom@[self.spec_hi_bank() * ROM_BANK + (addr - 0x4000)]
        } else {
            0xff
        }
    }

    /// The state after a write of `val` at `addr`.
    pub open spec fn spec_write(self, addr: u16, val: u8) -> MBC1 {
        if 0x2000 <= addr < 0x4000 {
            MBC1 { bank1: if val % 32 == 0 { 1 } else { (val % 32) as u8 }, ..self }
        } else if 0x4000 <= addr < 0x6000 {
            MBC1 { bank2: (val % 4) as u8, ..self }
        } else if 0x6000 <= addr < 0x8000 {
            MBC1 { mode: val != 0, ..self }
        } else {
            self
        }
    }

    /// A cartridge of `num_banks` banks with bank 1 selected.
    pub fn new(rom: Vec<u8>, num_banks: u16) -> (r: MBC1)
        requires
            1 <= num_banks <= 512,
            rom.len() >= num_banks * ROM_BANK,
        ensures
            r.wf(),
            r.rom@ == rom@ && r.num_banks == num_banks,
            r.bank1 == 1 && r.bank2 == 0 && !r.mode,
    {
        MBC1 { rom, num_banks, bank1: 1, bank2: 0, mode: false }
    }

    fn lo_bank(&self) -> (r: usize)
        requires
            self.wf(),
        ensures
            r == self.spec_lo_bank(),
            r < self.num_banks,
    {
        if self.mode {
            (self.bank2 as usize * 32) % self.num_banks as usize
        } else {
            0
        }
    }

    fn hi_bank(&self) -> (r: usize)
        requires
            self.wf(),
        ensures
            r == self.spec_hi_bank(),
            r < self.num_banks,
    {
        (self.bank2 as usize * 32 + self.bank1 as usize) % self.num_banks as usize
    }

    pub fn read(&self, addr: u16) -> (r: u8)
        requires
            self.wf(),
        ensures
            r == self.spec_read(addr),
    {
        if addr < 0x4000 {
            let bank = self.lo_bank();
            proof {
                assert(bank * ROM_BANK + addr < self.num_banks * ROM_BANK) by (nonlinear_arith)
                    requires
                        bank < self.num_banks,
                        addr < 0x4000,
                ;
            }
            self.rom[bank * ROM_BANK + addr as usize]
        } else if addr < 0x8000 {
            let bank = self.hi_bank();
            proof {
                assert(bank * ROM_BANK + (addr - 0x4000) < self.num_banks * ROM_BANK)
                    by (nonlinear_arith)
                    requires
                        bank < self.num_banks,
                        addr - 0x4000 < 0x4000,
                ;
            }
            self.rom[bank * ROM_BANK + (addr as usize - 0x4000)]
        } else {
            0xff
        }
    }

    /// Writes to the control registers: 0x2000-0x3FFF sets `bank1` from the
    /// low five bits (zero becomes one), 0x4000-0x5FFF sets `bank2`,
    /// 0x6000-0x7FFF the banking mode.
    pub fn write(&mut self, addr: u16, val: u8)
        requires
            old(self).wf(),
        ensures
            final(self).wf(),
            *final(self) == old(self).spec_write(addr, val),
    {
        if 0x2000 <= addr && addr < 0x4000 {
            let v = val % 32;
            self.bank1 = if v == 0 { 1 } else { v };
        } else if 0x4000 <= addr && addr < 0x6000 {
            self.bank2 = val % 4;
        } else if 0x6000 <= addr && addr < 0x8000 {
            self.mode = val != 0;
        }
    }
}

/// The mapper after the writes `ws`, in order.
pub open spec fn mbc1_after(m: MBC1, ws: Seq<(u16, u8)>) -> MBC1
    decreases ws.len(),
{
    if ws.len() == 0 {
        m
    } else {
        mbc1_after(m, ws.drop_last()).spec_write(ws.last().0, ws.last().1)
    }
}

/// After any sequence of writes, the 0x4000-0x7FFF area reads ROM bank
/// `((bank2 << 5) | bank1) mod num_banks`, where the bank registers hold what
/// the last writes to 0x2000-0x3FFF (low five bits, zero read as one) and to
/// 0x4000-0x5FFF (low two bits) left.
pub proof fn lemma_mbc1_write_sequence(m: MBC1, ws: Seq<(u16, u8)>)
    requires
        m.wf(),
    ensures
        mbc1_after(m, ws).wf(),
        mbc1_after(m, ws).rom == m.rom && mbc1_after(m, ws).num_banks == m.num_banks,
        forall|addr: u16| 0x4000 <= addr < 0x8000 ==> #[trigger] mbc1_after(m, ws).spec_read(addr) == m.rom@[
            ((mbc1_after(m, ws).bank2 * 32 + mbc1_after(m, ws).bank1) % (m.num_banks as int)) * ROM_BANK
                + (addr - 0x4000)],
    decreases ws.len(),
{
    if ws.len() > 0 {
        lemma_mbc1_write_sequence(m, ws.drop_last());
    }
}

pub struct MBC1Ram {
    pub mbc1: MBC1,
    pub ram: Vec<u8>,
    pub ram_enabled: bool,
}

impl MBC1Ram {
    pub open spec fn wf(&self) -> bool {
        &&& self.mbc1.wf()
        &&& self.ram.len() <= 16 * RAM_BANK
    }

    /// The number of 8 KiB RAM banks, counting a partial bank as one.
    pub open spec fn num_ram_banks(&self) -> int {
        (self.ram.len() + RAM_BANK - 1) / (RAM_BANK as int)
    }

    /// The RAM bank mapped at 0xA000-0xBFFF.
    pub open spec fn spec_ram_bank(&self) -> int {
        if self.mbc1.mode && self.num_ram_banks() > 0 {
            (self.mbc1.bank2 as int) % self.num_ram_banks()
        } else {
            0
        }
    }

    /// Index in RAM of the byte at `addr` (0xA000-0xBFFF).
    pub open spec fn ram_index(&self, addr: u16) -> int {
        self.spec_ram_bank() * RAM_BANK + (addr - 0xa000)
    }

    pub open spec fn spec_read(&self, addr: u16) -> u8 {
        if addr < 0x8000 {
            self.mbc1.spec_read(addr)
        } else if 0xa000 <= addr < 0xc000 && self.ram_enabled && self.ram_index(addr)
            < self.ram.len() {
            self.ram@[self.ram_index(addr)]
        } else {
            0xff
        }
    }

    /// Whether the write lands in RAM.
    pub open spec fn writes_ram(&self, addr: u16) -> bool {
        0xa000 <= addr < 0xc000 && self.ram_enabled && self.ram_index(addr) < self.ram.len()
    }

    /// `self` is the state after writing `val` at `addr` in `pre`.
    pub open spec fn wrote(&self, pre: &MBC1Ram, addr: u16, val: u8) -> bool {
        &&& self.mbc1 == if 0x2000 <= addr < 0x8000 {
            pre.mbc1.spec_write(addr, val)
        } else {
            pre.mbc1
        }
        &&& self.ram_enabled == if addr < 0x2000 {
            val % 16 == 0xa
        } else {
            pre.ram_enabled
        }
        &&& self.ram@ == if pre.writes_ram(addr) {
            pre.ram@.update(pre.ram_index(addr), val)
        } else {
            pre.ram@
        }
    }

    pub fn new(rom: Vec<u8>, num_banks: u16, ram_size: usize) -> (r: MBC1Ram)
        requires
            1 <= num_banks <= 512,
            rom.len() >= num_banks * ROM_BANK,
            ram_size <= 16 * RAM_BANK,
        ensures
            r.wf(),
            r.mbc1.rom@ == rom@ && r.mbc1.num_banks == num_banks,
            r.mbc1.bank1 == 1 && r.mbc1.bank2 == 0 && !r.mbc1.mode,
            r.ram@ == Seq::new(ram_size as nat, |i: int| 0u8),
            !r.ram_enabled,
    {
        MBC1Ram { mbc1: MBC1::new(rom, num_banks), ram: filled(ram_size, 0), ram_enabled: false }
    }

    fn ram_bank(&self) -> (r: usize)
        requires
            self.wf(),
        ensures
            r == self.spec_ram_bank(),
            r < 4,
    {
        let n = (self.ram.len() + RAM_BANK - 1) / RAM_BANK;
        if self.mbc1.mode && n > 0 {
            proof {
                if (self.mbc1.bank2 as nat) < n as nat {
                    vstd::arithmetic::div_mod::lemma_small_mod(self.mbc1.bank2 as nat, n as nat);
                } else {
                    vstd::arithmetic::div_mod::lemma_mod_bound(self.mbc1.bank2 as int, n as int);
                }
            }
            self.mbc1.bank2 as usize % n
        } else {
            0
        }
    }

    pub fn read(&self, addr: u16) -> (r: u8)
        requires
            self.wf(),
        ensures
            r == self.spec_read(addr),
    {
        if addr < 0x8000 {
            self.mbc1.read(addr)
        } else if 0xa000 <= addr && addr < 0xc000 && self.ram_enabled {
            let idx = self.ram_bank() * RAM_BANK + (addr as usize - 0xa000);
            if idx < self.ram.len() {
                self.ram[idx]
            } else {
                0xff
            }
        } else {
            0xff
        }
    }

    /// 0x0000-0x1FFF enables RAM when the low nibble is 0xA; the ROM control
    /// registers go to the MBC1 core; RAM writes land only while enabled.
    pub fn write(&mut self, addr: u16, val: u8)
        requires
            old(self).wf(),
        ensures
            final(self).wf(),
            final(self).wrote(old(self), addr, val),
    {
        if addr < 0x2000 {
            self.ram_enabled = val % 16 == 0xa;
        } else if addr < 0x8000 {
            self.mbc1.write(addr, val);
        } else if 0xa000 <= addr && addr < 0xc000 && self.ram_enabled {
            let idx = self.ram_bank() * RAM_BANK + (addr as usize - 0xa000);
            if idx < self.ram.len() {
                self.ram.set(idx, val);
            }
        }
    }
}

} // verus!
