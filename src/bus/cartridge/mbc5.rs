//! The MBC5 mapper: a nine-bit ROM bank and up to sixteen RAM banks.
use vstd::prelude::*;
use super::filled;
use super::mbc1::{RAM_BANK, ROM_BANK};

verus! {

pub struct MBC5 {
    pub rom: Vec<u8>,
    pub num_banks: u16,
    /// Nine-bit bank register; zero is a valid bank.
    pub bank: u16,
}

impl MBC5 {
    pub open spec fn wf(&self) -> bool {
        &&& 1 <= self.num_banks <= 512
        &&& self.rom.len() >= self.num_banks * ROM_BANK
        &&& self.bank < 512
    }

    pub open spec fn spec_read(&self, addr: u16) -> u8 {
        if addr < 0x4000 {
            self.rom@[addr as int]
        } else if addr < 0x8000 {
            self.rom@[(self.bank as int % self.num_banks as int) * ROM_BANK + (addr - 0x4000)]
        } else {
            0xff
        }
    }

    /// 0x2000-0x2FFF sets the low eight bits of the bank, 0x3000-0x3FFF its
    /// ninth bit from bit 0 of the value.
    pub open spec fn spec_write(self, addr: u16, val: u8) -> MBC5 {
        if 0x2000 <= addr < 0x3000 {
            MBC5 { bank: ((self.bank / 256) * 256 + val) as u16, ..self }
        } else if 0x3000 <= addr < 0x4000 {
            MBC5 { bank: ((val % 2) * 256 + self.bank % 256) as u16, ..self }
        } else {
            self
        }
    }

    pub fn new(rom: Vec<u8>, num_banks: u16) -> (r: MBC5)
        requires
            1 <= num_banks <= 512,
            rom.len() >= num_banks * ROM_BANK,
        ensures
            r.wf(),
            r.rom@ == rom@ && r.num_banks == num_banks && r.bank == 1,
    {
        MBC5 { rom, num_banks, bank: 1 }
    }

    pub fn read(&self, addr: u16) -> (r: u8)
        requires
            self.wf(),
        ensures
            r == self.spec_read(addr),
    {
        if addr < 0x4000 {
            self.rom[addr as usize]
        } else if addr < 0x8000 {
            let bank = self.bank as usize % self.num_banks as usize;
            proof {
                assert(bank * ROM_BANK + (addr - 0x4000) < self.num_banks * ROM_BANK)
                    by (nonlinear_arith)
                    requires
                        bank < self.num_banks,
                        addr - 0x4000 < 0x4000,
                ;
            }
            self.rom[bank * ROM_BANK + (addr as usize - 0x4000)]
        } else {
            0xff
        }
    }

    pub fn write(&mut self, addr: u16, val: u8)
        requires
            old(self).wf(),
        ensures
            final(self).wf(),
            *final(self) == old(self).spec_write(addr, val),
    {
        if 0x2000 <= addr && addr < 0x3000 {
            self.bank = (self.bank / 256) * 256 + val as u16;
        } else if 0x3000 <= addr && addr < 0x4000 {
            self.bank = (val % 2) as u16 * 256 + self.bank % 256;
        }
    }
}

pub struct MBC5Ram {
    pub mbc5: MBC5,
    pub ram: Vec<u8>,
    pub ram_bank: u8,
    pub ram_enabled: bool,
}

impl MBC5Ram {
    pub open spec fn wf(&self) -> bool {
        self.mbc5.wf() && self.ram.len() <= 16 * RAM_BANK && self.ram_bank < 16
    }

    pub open spec fn num_ram_banks(&self) -> int {
        (self.ram.len() + RAM_BANK - 1) / (RAM_BANK as int)
    }

    pub open spec fn ram_index(&self, addr: u16) -> int {
        self.ram_bank * RAM_BANK + (addr - 0xa000)
    }

    pub open spec fn reads_ram(&self, addr: u16) -> bool {
        0xa000 <= addr < 0xc000 && self.ram_enabled && self.ram_index(addr) < self.ram.len()
    }

    pub open spec fn spec_read(&self, addr: u16) -> u8 {
        if addr < 0x8000 {
            self.mbc5.spec_read(addr)
        } else if self.reads_ram(addr) {
            self.ram@[self.ram_index(addr)]
        } else {
            0xff
        }
    }

    /// 0x4000-0x5FFF selects the RAM bank from the low nibble, modulo the
    /// number of banks.
    pub open spec fn wrote(&self, pre: &MBC5Ram, addr: u16, val: u8) -> bool {
        &&& self.mbc5 == if addr < 0x8000 { pre.mbc5.spec_write(addr, val) } else { pre.mbc5 }
        &&& self.ram_enabled == if addr < 0x2000 { val % 16 == 0xa } else { pre.ram_enabled }
        &&& self.ram_bank == if 0x4000 <= addr < 0x6000 {
            if pre.num_ram_banks() > 0 { (((val % 16) as int) % pre.num_ram_banks()) as u8 } else { 0 }
        } else {
            pre.ram_bank
        }
        &&& self.ram@ == if pre.reads_ram(addr) {
            pre.ram@.update(pre.ram_index(addr), val)
        } else {
            pre.ram@
        }
    }

    pub fn new(rom: Vec<u8>, num_banks: u16, ram_size: usize) -> (r: MBC5Ram)
        requires
            1 <= num_banks <= 512,
            rom.len() >= num_banks * ROM_BANK,
            ram_size <= 16 * RAM_BANK,
        ensures
            r.wf(),
            r.mbc5.rom@ == rom@ && r.mbc5.num_banks == num_banks && r.mbc5.bank == 1,
            r.ram@ == Seq::new(ram_size as nat, |i: int| 0u8),
            r.ram_bank == 0 && !r.ram_enabled,
    {
        MBC5Ram { mbc5: MBC5::new(rom, num_banks), ram: filled(ram_size, 0), ram_bank: 0, ram_enabled: false }
    }

    pub fn read(&self, addr: u16) -> (r: u8)
        requires
            self.wf(),
        ensures
            r == self.spec_read(addr),
    {
        if addr < 0x8000 {
            self.mbc5.read(addr)
        } else if 0xa000 <= addr && addr < 0xc000 && self.ram_enabled {
            let idx = self.ram_bank as usize * RAM_BANK + (addr as usize - 0xa000);
            if idx < self.ram.len() {
                self.ram[idx]
            } else {
                0xff
            }
        } else {
            0xff
        }
    }

    pub fn write(&mut self, addr: u16, val: u8)
        requires
            old(self).wf(),
        ensures
            final(self).wf(),
            final(self).wrote(old(self), addr, val),
    {
        if addr < 0x2000 {
            self.ram_enabled = val % 16 == 0xa;
        } else if addr < 0x4000 {
            self.mbc5.write(addr, val);
        } else if addr < 0x6000 {
            let n = (self.ram.len() + RAM_BANK - 1) / RAM_BANK;
            self.ram_bank = if n > 0 { ((val % 16) as usize % n) as u8 } else { 0 };
        } else if 0xa000 <= addr && addr < 0xc000 && self.ram_enabled {
            let idx = self.ram_bank as usize * RAM_BANK + (addr as usize - 0xa000);
            if idx < self.ram.len() {
                self.ram.set(idx, val);
            }
        }
    }
}

} // verus!
