//! The MBC2 mapper with its built-in 512 x 4-bit RAM.
use vstd::prelude::*;
use super::filled;
use super::mbc1::ROM_BANK;

verus! {

/// Number of cells of the built-in RAM.
pub const MBC2_RAM: usize = 0x200;

pub struct MBC2 {
    pub rom: Vec<u8>,
    pub num_banks: u16,
    /// Four-bit bank register, never zero.
    pub bank: u8,
    /// One cell per byte; the high nibble of each always reads 0xF.
    pub ram: Vec<u8>,
    pub ram_enabled: bool,
}

impl MBC2 {
    pub open spec fn wf(&self) -> bool {
        &&& 1 <= self.num_banks <= 512
        &&& self.rom.len() >= self.num_banks * ROM_BANK
        &&& 1 <= self.bank < 16
        &&& self.ram.len() == MBC2_RAM
        &&& forall|i: int| 0 <= i < MBC2_RAM ==> self.ram@[i] >= 0xf0
    }

    pub open spec fn spec_hi_bank(&self) -> int {
        self.bank as int % self.num_banks as int
    }

    /// The RAM cell that `addr` (0xA000-0xBFFF) reaches: RAM repeats every
    /// 512 bytes.
    pub open spec fn ram_index(addr: u16) -> int {
        (addr - 0xa000) % (MBC2_RAM as int)
    }

    pub open spec fn spec_read(&self, addr: u16) -> u8 {
        if addr < 0x4000 {
            self.rom@[addr as int]
        } else if addr < 0x8000 {
            self.rom@[self.spec_hi_bank() * ROM_BANK + (addr - 0x4000)]
        } else if 0xa000 <= addr < 0xc000 && self.ram_enabled {
            self.ram@[Self::ram_index(addr)]
        } else {
            0xff
        }
    }

    /// `self` is the state after writing `val` at `addr` in `pre`: in
    /// 0x0000-0x3FFF, address bit 8 set selects the bank register, clear the
    /// RAM enable; RAM keeps the low nibble.
    pub open spec fn wrote(&self, pre: &MBC2, addr: u16, val: u8) -> bool {
        &&& self.rom == pre.rom && self.num_banks == pre.num_banks
        &&& self.bank == if addr < 0x4000 && (addr / 256) % 2 == 1 {
            if val % 16 == 0 { 1 } else { (val % 16) as u8 }
        } else {
            pre.bank
        }
        &&& self.ram_enabled == if addr < 0x4000 && (addr / 256) % 2 == 0 {
            val % 16 == 0xa
        } else {
            pre.ram_enabled
        }
        &&& self.ram@ == if 0xa000 <= addr < 0xc000 && pre.ram_enabled {
            pre.ram@.update(Self::ram_index(addr), (0xf0 + val % 16) as u8)
        } else {
            pre.ram@
        }
    }

    pub fn new(rom: Vec<u8>, num_banks: u16) -> (r: MBC2)
        requires
            1 <= num_banks <= 512,
            rom.len() >= num_banks * ROM_BANK,
        ensures
            r.wf(),
            r.rom@ == rom@ && r.num_banks == num_banks && r.bank == 1 && !r.ram_enabled,
            r.ram@ == Seq::new(MBC2_RAM as nat, |i: int| 0xf0u8),
    {
        MBC2 { rom, num_banks, bank: 1, ram: filled(MBC2_RAM, 0xf0), ram_enabled: false }
    }

    pub fn read(&self, addr: u16) -> (r: u8)
        requires
            self.wf(),
        ensures
            r == self.spec_read(addr),
            0xa000 <= addr < 0xc000 ==> r >= 0xf0,
    {
        if addr < 0x4000 {
            self.rom[addr as usize]
        } else if addr < 0x8000 {
            let bank = self.bank as usize % self.num_banks as usize;
            proof {
                assert(bank * ROM_BANK + (addr - 0x4000) < self.num_banks * ROM_BANK)
                    by (nonlinear_arith)
                    requires
                        bank < self.num_banks,
                        addr - 0x4000 < 0x4000,
                ;
            }
            self.rom[bank * ROM_BANK + (addr as usize - 0x4000)]
        } else if 0xa000 <= addr && addr < 0xc000 && self.ram_enabled {
            self.ram[(addr as usize - 0xa000) % MBC2_RAM]
        } else {
            0xff
        }
    }

    pub fn write(&mut self, addr: u16, val: u8)
        requires
            old(self).wf(),
        ensures
            final(self).wf(),
            final(self).wrote(old(self), addr, val),
    {
        if addr < 0x4000 {
            if (addr / 256) % 2 == 1 {
                let v = val % 16;
                self.bank = if v == 0 { 1 } else { v };
            } else {
                self.ram_enabled = val % 16 == 0xa;
            }
        } else if 0xa000 <= addr && addr < 0xc000 && self.ram_enabled {
            self.ram.set((addr as usize - 0xa000) % MBC2_RAM, 0xf0 + val % 16);
        }
    }

    /// Loads the RAM cells from a save, keeping each byte's low nibble.
    pub fn load_ram(&mut self, data: &[u8])
        requires
            old(self).wf(),
            data.len() >= MBC2_RAM,
        ensures
            final(self).wf(),
            final(self).ram@ == Seq::new(MBC2_RAM as nat, |j: int| (0xf0 + data@[j] % 16) as u8),
            final(self).rom == old(self).rom && final(self).num_banks == old(self).num_banks,
            final(self).bank == old(self).bank && final(self).ram_enabled == old(self).ram_enabled,
    {
        let mut i: usize = 0;
        while i < MBC2_RAM
            invariant
                self.ram.len() == MBC2_RAM,
                data.len() >= MBC2_RAM,
                i <= MBC2_RAM,
                forall|j: int| 0 <= j < i ==> self.ram@[j] == (0xf0 + data@[j] % 16) as u8,
                self.rom == old(self).rom && self.num_banks == old(self).num_banks,
                self.bank == old(self).bank && self.ram_enabled == old(self).ram_enabled,
            decreases MBC2_RAM - i,
        {
            self.ram.set(i, 0xf0 + data[i] % 16);
            i = i + 1;
        }
        assert(self.ram@ =~= Seq::new(MBC2_RAM as nat, |j: int| (0xf0 + data@[j] % 16) as u8));
    }
}

} // verus!
