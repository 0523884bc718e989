//! The memory bus: address decoding, OAM DMA, the interrupt registers, and
//! the per-machine-cycle clocking of the components it owns.
use vstd::prelude::*;

pub mod cartridge;
pub mod joypad;
pub mod timers;

use crate::apu::Apu;
use crate::ppu::{lcd_on, mode_at, Ppu, PpuMode, FRAME_CYCLES, LINE_CYCLES};
use cartridge::Cartridge;
use joypad::Joypad;
use timers::{timer_input, Timers};

verus! {

/// The OAM DMA engine.
pub struct Dma {
    /// The source page, as written to 0xFF46.
    pub base: u8,
    pub enabled: bool,
    /// The next OAM slot to copy, once the transfer has started.
    pub slot: Option<u8>,
}

impl Dma {
    pub open spec fn wf(&self) -> bool {
        self.slot matches Some(s) ==> s < 0xa0
    }

    pub fn new() -> (r: Dma)
        ensures
            r.wf(),
            r.base == 0 && !r.enabled && r.slot is None,
    {
        Dma { base: 0, enabled: false, slot: None }
    }

    /// One machine cycle. An armed transfer starts on the cycle after the
    /// trigger, then copies one byte per cycle: returns the OAM slot and the
    /// source address, `base * 0x100 + slot`; after slot 0x9F it stops.
    pub fn tick(&mut self) -> (r: Option<(u8, u16)>)
        requires
            old(self).wf(),
        ensures
            final(self).wf(),
            final(self).base == old(self).base,
            !old(self).enabled ==> r is None && *final(self) == *old(self),
            old(self).enabled && old(self).slot is None ==> r is None && final(self).slot == Some(0u8)
                && final(self).enabled,
            old(self).enabled ==> (old(self).slot matches Some(s) ==> r == Some((s, (old(self).base * 256
                + s) as u16)) && if s == 0x9f {
                !final(self).enabled && final(self).slot is None
            } else {
                final(self).enabled && final(self).slot == Some((s + 1) as u8)
            }),
    {
        if self.enabled {
            match self.slot {
                Some(slot) => {
                    let addr = self.base as u16 * 256 + slot as u16;
                    if slot == 0x9f {
                        self.enabled = false;
                        self.slot = None;
                    } else {
                        self.slot = Some(slot + 1);
                    }
                    return Some((slot, addr));
                },
                None => self.slot = Some(0),
            }
        }
        None
    }
}

/// `f` with the bits of `m` set when `c` holds.
pub open spec fn or_if(f: u8, c: bool, m: u8) -> u8 {
    if c { f | m } else { f }
}

/// The IF mask of an interrupt source.
pub open spec fn source_mask(source: u8) -> u8 {
    if source == 0 { 1 } else if source == 1 { 2 } else if source == 2 { 4 } else if source == 3 { 8 } else { 16 }
}

/// The interrupt sources, by bit of IF and IE.
pub const INT_VBLANK: u8 = 0;
pub const INT_STAT: u8 = 1;
pub const INT_TIMER: u8 = 2;
pub const INT_SERIAL: u8 = 3;
pub const INT_JOYPAD: u8 = 4;

pub struct MemoryBus {
    pub bootrom: Option<Vec<u8>>,
    pub cartridge: Cartridge,
    pub ppu: Ppu,
    pub dma: Dma,
    pub apu: Apu,
    pub wram: Vec<u8>,
    pub hram: Vec<u8>,
    pub timers: Timers,
    pub joypad: Joypad,
    /// The boot ROM still overlays 0x0000-0x00FF.
    pub bootrom_enabled: bool,
    pub int_flag: u8,
    pub int_enable: u8,
    /// The serial data register.
    pub serial_data: u8,
    /// Bytes sent over the serial port, oldest first.
    pub serial_out: Vec<u8>,
}

impl MemoryBus {
    pub open spec fn wf(&self) -> bool {
        &&& self.cartridge.wf() && self.ppu.wf() && self.apu.wf() && self.dma.wf() && self.timers.wf()
        &&& self.wram.len() == 0x2000 && self.hram.len() == 0x7f
        &&& self.bootrom_enabled ==> self.bootrom is Some
        &&& self.bootrom matches Some(b) ==> b.len() == 0x100
    }

    /// The unused I/O addresses, which read 0xFF and ignore writes.
    pub open spec fn unused_io(addr: u16) -> bool {
        addr == 0xff03 || (0xff08 <= addr <= 0xff0e) || addr == 0xff15 || addr == 0xff1f || (0xff27
            <= addr <= 0xff2f) || (0xff4c <= addr <= 0xff4f) || (0xff51 <= addr <= 0xff7f)
    }

    /// `self` follows `pre` with no frame lost: the completed-frame count
    /// never drops, and a raised frame flag was raised before or comes with
    /// a completed frame.
    pub open spec fn progressed(&self, pre: &MemoryBus) -> bool {
        &&& self.ppu.completed@ >= pre.ppu.completed@
        &&& self.ppu.draw ==> pre.ppu.draw || self.ppu.completed@ > pre.ppu.completed@
    }

    /// Work RAM (without its mirror) and high RAM.
    pub open spec fn stack_ram(addr: u16) -> bool {
        (0xc000 <= addr < 0xe000) || (0xff80 <= addr <= 0xfffe)
    }

    /// A write to `addr` reaches RAM address `a`: the same address, or the
    /// work RAM that a mirror address stands for.
    pub open spec fn aliases(a: u16, addr: u16) -> bool {
        a == addr || (0xe000 <= addr < 0xfe00 && a == addr - 0x2000)
    }

    /// The registers that read back exactly what was written.
    pub open spec fn plain_register(addr: u16) -> bool {
        addr == 0xff05 || addr == 0xff06 || addr == 0xffff || addr == 0xff46 || addr == 0xff40
            || addr == 0xff42 || addr == 0xff43 || addr == 0xff45 || (0xff47 <= addr <= 0xff4b)
    }

    /// The byte that the processor reads at `addr`.
    pub open spec fn spec_read(&self, addr: u16) -> u8 {
        if addr < 0x100 && self.bootrom_enabled {
            self.bootrom.unwrap()@[addr as int]
        } else if addr < 0x8000 || (0xa000 <= addr < 0xc000) {
            self.cartridge.spec_read(addr)
        } else if addr < 0xa000 {
            self.ppu.spec_read(addr)
        } else if addr < 0xe000 {
            self.wram@[addr - 0xc000]
        } else if addr < 0xfe00 {
            self.wram@[addr - 0xe000]
        } else if addr < 0xfea0 {
            if self.dma.slot is Some {
                0xff
            } else if self.ppu.mode == PpuMode::OamScan || self.ppu.mode == PpuMode::Drawing {
                0xff
            } else {
                self.ppu.oam_ram@[addr - 0xfe00]
            }
        } else if addr < 0xff00 {
            0x00
        } else if 0xff80 <= addr <= 0xfffe {
            self.hram@[addr - 0xff80]
        } else if addr == 0xff00 {
            self.joypad.spec_read()
        } else if addr == 0xff01 {
            0x00
        } else if addr == 0xff02 {
            0x7e
        } else if addr == 0xff04 {
            (self.timers.div / 256) as u8
        } else if addr == 0xff05 {
            self.timers.tima
        } else if addr == 0xff06 {
            self.timers.tma
        } else if addr == 0xff07 {
            self.timers.tac | 0xf8
        } else if addr == 0xff0f {
            self.int_flag | 0xe0
        } else if 0xff10 <= addr <= 0xff3f && !Self::unused_io(addr) {
            self.apu.spec_read(addr)
        } else if 0xff40 <= addr <= 0xff4b && addr != 0xff46 {
            self.ppu.spec_read(addr)
        } else if addr == 0xff46 {
            self.dma.base
        } else if addr == 0xffff {
            self.int_enable
        } else {
            0xff
        }
    }

    /// A bus with everything at power-on values; the boot ROM, if given,
    /// overlays the start of the cartridge.
    pub fn new(bootrom: Option<Vec<u8>>, cartridge: Cartridge) -> (r: MemoryBus)
        requires
            cartridge.wf(),
            bootrom matches Some(b) ==> b.len() == 0x100,
        ensures
            r.wf(),
            r.bootrom_enabled == bootrom is Some,
            r.int_flag == 0xe0 && r.int_enable == 0,
            r.apu.silent(),
    {
        let enabled = bootrom.is_some();
        MemoryBus {
            bootrom,
            cartridge,
            ppu: Ppu::new(),
            dma: Dma::new(),
            apu: Apu::new(),
            wram: cartridge::filled(0x2000, 0),
            hram: cartridge::filled(0x7f, 0),
            timers: Timers::new(),
            joypad: Joypad::new(),
            bootrom_enabled: enabled,
            int_flag: 0xe0,
            int_enable: 0,
            serial_data: 0,
            serial_out: Vec::new(),
        }
    }

    /// Reads a byte as the processor sees it. IF always reads with its high
    /// three bits set; OAM reads 0xFF while a DMA runs.
    pub fn read(&self, addr: u16) -> (r: u8)
        requires
            self.wf(),
        ensures
            r == self.spec_read(addr),
            addr == 0xff0f ==> r & 0xe0 == 0xe0,
            addr == 0xff41 ==> r % 8 == (if self.ppu.ly == self.ppu.lyc { 4int } else { 0 })
                + crate::ppu::mode_bits(self.ppu.mode),
    {
        if addr < 0x100 && self.bootrom_enabled {
            match &self.bootrom {
                Some(b) => b[addr as usize],
                None => 0xff,
            }
        } else if addr < 0x8000 || (0xa000 <= addr && addr < 0xc000) {
            self.cartridge.read(addr)
        } else if addr < 0xa000 {
            self.ppu.read(addr)
        } else if addr < 0xe000 {
            self.wram[(addr - 0xc000) as usize]
        } else if addr < 0xfe00 {
            self.wram[(addr - 0xe000) as usize]
        } else if addr < 0xfea0 {
            if self.dma.slot.is_some() {
                0xff
            } else {
                self.ppu.read_oam((addr - 0xfe00) as usize)
            }
        } else if addr < 0xff00 {
            0x00
        } else if 0xff80 <= addr && addr <= 0xfffe {
            self.hram[(addr - 0xff80) as usize]
        } else if addr == 0xff00 {
            self.joypad.read()
        } else if addr == 0xff01 {
            0x00
        } else if addr == 0xff02 {
            0x7e
        } else if addr == 0xff04 {
            self.timers.read_div()
        } else if addr == 0xff05 {
            self.timers.tima
        } else if addr == 0xff06 {
            self.timers.tma
        } else if addr == 0xff07 {
            self.timers.tac | 0xf8
        } else if addr == 0xff0f {
            let r = self.int_flag | 0xe0;
            proof {
                crate::bits::lemma_or_high3(self.int_flag);
            }
            r
        } else if 0xff10 <= addr && addr <= 0xff3f && !Self::is_unused_io(addr) {
            self.apu.read(addr)
        } else if 0xff40 <= addr && addr <= 0xff4b && addr != 0xff46 {
            self.ppu.read(addr)
        } else if addr == 0xff46 {
            self.dma.base
        } else if addr == 0xffff {
            self.int_enable
        } else {
            0xff
        }
    }

    fn is_unused_io(addr: u16) -> (r: bool)
        ensures
            r == Self::unused_io(addr),
    {
        addr == 0xff03 || (0xff08 <= addr && addr <= 0xff0e) || addr == 0xff15 || addr == 0xff1f
            || (0xff27 <= addr && addr <= 0xff2f) || (0xff4c <= addr && addr <= 0xff4f) || (0xff51
            <= addr && addr <= 0xff7f)
    }

    /// `self` is `pre` after the processor writes `val` at `addr`.
    pub open spec fn stored(&self, pre: &MemoryBus, addr: u16, val: u8) -> bool {
        &&& ((addr < 0x8000 || (0xa000 <= addr < 0xc000)) ==> self.cartridge.wrote(
                &pre.cartridge,
                addr,
                val,
            ))
        &&& (0xc000 <= addr < 0xe000 ==> self.wram@ == pre.wram@.update(addr - 0xc000, val))
        &&& (0xe000 <= addr < 0xfe00 ==> self.wram@ == pre.wram@.update(addr - 0xe000, val))
        &&& (0xff80 <= addr <= 0xfffe ==> self.hram@ == pre.hram@.update(addr - 0xff80, val))
        &&& (addr == 0xff04 ==> self.timers == (Timers { div: 0, ..pre.timers }).spec_edge(false)
                && self.spec_read(0xff04) == 0)
        &&& (Self::stack_ram(addr) ==> self.spec_read(addr) == val)
        &&& (forall|a: u16| Self::stack_ram(a) && !Self::aliases(a, addr) ==> #[trigger] self.spec_read(a)
                == pre.spec_read(a))
        &&& (0x8000 <= addr < 0xa000 ==> self.ppu.vram@ == pre.ppu.vram@.update(addr - 0x8000, val))
        &&& (0xfe00 <= addr < 0xfea0 ==> self.ppu.oam_ram@ == if pre.dma.slot is Some
                || pre.ppu.mode == PpuMode::OamScan || pre.ppu.mode == PpuMode::Drawing {
                pre.ppu.oam_ram@
            } else {
                pre.ppu.oam_ram@.update(addr - 0xfe00, val)
            })
        &&& (addr == 0xff00 ==> self.joypad.buttons == (val / 32 % 2 == 0) && self.joypad.dpad
                == (val / 16 % 2 == 0))
        &&& (addr == 0xff01 ==> self.serial_data == val)
        &&& (addr == 0xff02 ==> self.serial_out@ == if val >= 0x80 {
                pre.serial_out@.push(pre.serial_data)
            } else {
                pre.serial_out@
            })
        &&& (addr != 0xff02 ==> self.serial_out@ == pre.serial_out@)
        &&& (self.ppu.draw == pre.ppu.draw && self.ppu.completed == pre.ppu.completed)
        &&& (Self::plain_register(addr) ==> self.spec_read(addr) == val)
        &&& (addr == 0xff07 ==> self.spec_read(addr) == val | 0xf8)
        &&& (addr == 0xff0f ==> self.spec_read(addr) == val | 0xe0)
        &&& (pre.apu.master_enable && 0xff10 <= addr <= 0xff25 && !Self::unused_io(addr)
                ==> self.spec_read(addr) == crate::apu::written_read(addr, val))
        &&& (addr == 0xff05 ==> self.timers == (Timers {
                tima: val,
                overflow: false,
                ..pre.timers
            }))
        &&& (addr == 0xff06 ==> self.timers == (Timers { tma: val, ..pre.timers }))
        &&& (addr == 0xff07 ==> self.timers == (Timers { tac: val | 0xf8, ..pre.timers }).spec_edge(
                timer_input(pre.timers.div, val | 0xf8),
            ))
        &&& (addr == 0xff0f ==> self.int_flag == val | 0xe0)
        &&& (addr == 0xffff ==> self.int_enable == val)
        &&& (addr == 0xff46 ==> self.dma.base == val && self.dma.enabled)
        &&& (addr == 0xff50 ==> self.bootrom_enabled == (pre.bootrom_enabled && val % 2 == 0))
        &&& (addr != 0xff50 ==> self.bootrom_enabled == pre.bootrom_enabled)
        &&& (0xff10 <= addr <= 0xff3f && !Self::unused_io(addr) ==> pre.apu.accepts(addr)
                ==> (addr == 0xff26 ==> self.apu.master_enable == (val >= 128)))
        &&& (0xff10 <= addr <= 0xff3f && !Self::unused_io(addr) && !pre.apu.accepts(addr)
                ==> self.apu == pre.apu)
        &&& (addr == 0xff26 && val < 128 ==> self.apu.silent())
        &&& (addr != 0xff0f ==> self.int_flag == pre.int_flag)
        &&& (addr != 0xffff ==> self.int_enable == pre.int_enable)
        &&& !(0xff10 <= addr <= 0xff3f) ==> self.apu == pre.apu
        &&& !((0x8000 <= addr < 0xa000) || (0xfe00 <= addr < 0xfea0) || (0xff40 <= addr <= 0xff4b)) ==> self.ppu == pre.ppu
    }

    /// `self` is `pre` after a word is pushed below `sp`: the high byte at
    /// SP - 1, then the low byte at SP - 2.
    pub open spec fn pushed(&self, pre: &MemoryBus, sp: u16, val: u16) -> bool {
        exists|mid: MemoryBus|
            #[trigger] mid.stored(pre, ((sp + 65535) % 65536) as u16, (val / 256) as u8) && self.stored(
                &mid,
                ((sp + 65534) % 65536) as u16,
                (val % 256) as u8,
            )
    }

    /// Writes a byte as the processor does.
    pub fn write(&mut self, addr: u16, val: u8)
        requires
            old(self).wf(),
        ensures
            final(self).wf(),
            final(self).stored(old(self), addr, val),
    {
        if addr < 0x8000 || (0xa000 <= addr && addr < 0xc000) {
            self.cartridge.write(addr, val);
        } else if addr < 0xa000 {
            self.ppu.write(addr, val);
        } else if addr < 0xe000 {
            self.wram.set((addr - 0xc000) as usize, val);
        } else if addr < 0xfe00 {
            self.wram.set((addr - 0xe000) as usize, val);
        } else if addr < 0xfea0 {
            if self.dma.slot.is_none() {
                self.ppu.write_oam((addr - 0xfe00) as u8, val);
            }
        } else if addr < 0xff00 {
        } else if 0xff80 <= addr && addr <= 0xfffe {
            self.hram.set((addr - 0xff80) as usize, val);
        } else if addr == 0xff00 {
            self.joypad.write(val);
        } else if addr == 0xff01 {
            self.serial_data = val;
        } else if addr == 0xff02 {
            if val >= 0x80 {
                self.serial_out.push(self.serial_data);
            }
        } else if addr == 0xff04 {
            self.timers.reset_div();
        } else if addr == 0xff05 {
            self.timers.write_tima(val);
        } else if addr == 0xff06 {
            self.timers.tma = val;
        } else if addr == 0xff07 {
            self.timers.write_tac(val);
            proof {
                crate::bits::lemma_or_twice(val, 0xf8);
            }
        } else if addr == 0xff0f {
            self.int_flag = val | 0xe0;
            proof {
                crate::bits::lemma_or_twice(val, 0xe0);
            }
        } else if addr == 0xffff {
            self.int_enable = val;
        } else if 0xff10 <= addr && addr <= 0xff3f && !Self::is_unused_io(addr) {
            self.apu.write(addr, val);
        } else if 0xff40 <= addr && addr <= 0xff4b && addr != 0xff46 {
            self.ppu.write(addr, val);
        } else if addr == 0xff46 {
            self.dma.base = val;
            self.dma.enabled = true;
        } else if addr == 0xff50 {
            if self.bootrom_enabled && val % 2 == 1 {
                self.bootrom_enabled = false;
            }
        }
    }

    /// Sets bit `int` of IF.
    pub fn request_interrupt(&mut self, source: u8)
        requires
            old(self).wf(),
            source < 5,
        ensures
            final(self).wf(),
            final(self).int_flag == old(self).int_flag | (1u8 << source),
            *final(self) == (MemoryBus { int_flag: final(self).int_flag, ..*old(self) }),
    {
        self.int_flag = self.int_flag | (1u8 << source);
    }

    /// The byte that DMA copies from `addr`: the bus below 0xE000, work RAM
    /// (folded) above.
    pub open spec fn dma_source(&self, addr: u16) -> u8 {
        if addr < 0xe000 {
            self.spec_read(addr)
        } else {
            self.wram@[(addr - 0xe000) % 0x2000]
        }
    }

    /// One DMA step: copies the next byte into OAM. Sources at 0xE000 and
    /// above read work RAM.
    pub fn tick_dma(&mut self)
        requires
            old(self).wf(),
        ensures
            final(self).wf(),
            old(self).dma.enabled ==> (old(self).dma.slot matches Some(slot) ==> final(self).ppu.oam_ram@
                == old(self).ppu.oam_ram@.update(
                slot as int,
                old(self).dma_source((old(self).dma.base * 256 + slot) as u16),
            )),
            !(old(self).dma.enabled && old(self).dma.slot is Some) ==> final(self).ppu == old(self).ppu,
            final(self).ppu == (Ppu { oam_ram: final(self).ppu.oam_ram, ..old(self).ppu }),
            *final(self) == (MemoryBus { ppu: final(self).ppu, dma: final(self).dma, ..*old(self) }),
    {
        if let Some((slot, addr)) = self.dma.tick() {
            let val = if addr < 0xe000 {
                self.read(addr)
            } else {
                self.wram[((addr - 0xe000) % 0x2000) as usize]
            };
            self.ppu.write_dma(slot, val);
        }
    }

    /// One machine cycle of every clocked component, in the order timer,
    /// DMA, picture unit, audio unit, joypad, cartridge clock; their interrupt
    /// requests are ORed into IF in that order.
    #[verifier::rlimit(60)]
    pub fn tick(&mut self)
        requires
            old(self).wf(),
        ensures
            final(self).wf(),
            final(self).int_enable == old(self).int_enable,
            final(self).timers == old(self).timers.spec_increment().0,
            final(self).int_flag == or_if(
                or_if(
                    or_if(
                        or_if(old(self).int_flag, old(self).timers.spec_increment().1.interrupt, 4),
                        lcd_on(old(self).ppu.lcdc) && old(self).ppu.cycles == 144 * LINE_CYCLES,
                        1,
                    ),
                    lcd_on(old(self).ppu.lcdc) && final(self).ppu.stat_line() && !old(self).ppu.stat_condition,
                    2,
                ),
                old(self).joypad.interrupt,
                16,
            ),
            lcd_on(old(self).ppu.lcdc) ==> final(self).ppu.cycles == (old(self).ppu.cycles + 1) % (FRAME_CYCLES as int)
                && final(self).ppu.mode == mode_at(old(self).ppu.cycles as int),
            !lcd_on(old(self).ppu.lcdc) ==> final(self).ppu.ly == 0 && final(self).ppu.cycles == 0,
            final(self).ppu.completed@ == old(self).ppu.completed@ + if old(self).ppu.ticks == FRAME_CYCLES {
                1int
            } else {
                0
            },
            final(self).ppu.draw == (old(self).ppu.draw || old(self).ppu.ticks == FRAME_CYCLES),
            old(self).dma.enabled ==> (old(self).dma.slot matches Some(slot) ==> final(self).ppu.oam_ram@
                == old(self).ppu.oam_ram@.update(
                slot as int,
                old(self).dma_source((old(self).dma.base * 256 + slot) as u16),
            )),
            !(old(self).dma.enabled && old(self).dma.slot is Some) ==> final(self).ppu.oam_ram
                == old(self).ppu.oam_ram,
            !final(self).joypad.interrupt,
            final(self).cartridge.clocked(&old(self).cartridge),
            final(self).wram == old(self).wram && final(self).hram == old(self).hram,
            final(self).bootrom_enabled == old(self).bootrom_enabled,
            final(self).serial_out == old(self).serial_out,
            old(self).apu.silent() ==> final(self).apu.silent(),
    {
        self.tick_timers();
        self.tick_dma();
        self.tick_ppu();
        self.tick_rest();
    }

    /// Sets IF bit `source` when `cond` holds.
    fn request_if(&mut self, cond: bool, source: u8)
        requires
            old(self).wf(),
            source < 5,
        ensures
            final(self).wf(),
            final(self).int_flag == or_if(old(self).int_flag, cond, source_mask(source)),
            *final(self) == (MemoryBus { int_flag: final(self).int_flag, ..*old(self) }),
    {
        proof {
            crate::bits::lemma_source_masks();
        }
        if cond {
            self.request_interrupt(source);
        }
    }

    /// The timer's cycle: its interrupt, and the audio frame sequencer on a
    /// falling edge of DIV bit 12.
    fn tick_timers(&mut self)
        requires
            old(self).wf(),
        ensures
            final(self).wf(),
            final(self).timers == old(self).timers.spec_increment().0,
            final(self).int_flag == or_if(old(self).int_flag, old(self).timers.spec_increment().1.interrupt, 4),
            *final(self) == (MemoryBus { timers: final(self).timers, int_flag: final(self).int_flag, apu: final(self).apu, ..*old(self) }),
            old(self).apu.silent() ==> final(self).apu.silent(),
    {
        let events = self.timers.increment();
        self.request_if(events.interrupt, INT_TIMER);
        if events.frame_sequencer {
            self.apu.tick_frame_sequencer();
        }
    }

    /// The picture unit's cycle and its interrupts.
    fn tick_ppu(&mut self)
        requires
            old(self).wf(),
        ensures
            final(self).wf(),
            *final(self) == (MemoryBus { ppu: final(self).ppu, int_flag: final(self).int_flag, ..*old(self) }),
            final(self).int_flag == or_if(
                or_if(old(self).int_flag, lcd_on(old(self).ppu.lcdc) && old(self).ppu.cycles == 144 * LINE_CYCLES, 1),
                lcd_on(old(self).ppu.lcdc) && final(self).ppu.stat_line() && !old(self).ppu.stat_condition,
                2,
            ),
            lcd_on(old(self).ppu.lcdc) ==> final(self).ppu.cycles == (old(self).ppu.cycles + 1) % (FRAME_CYCLES as int)
                && final(self).ppu.mode == mode_at(old(self).ppu.cycles as int),
            !lcd_on(old(self).ppu.lcdc) ==> final(self).ppu.ly == 0 && final(self).ppu.cycles == 0,
            final(self).ppu.completed@ == old(self).ppu.completed@ + if old(self).ppu.ticks == FRAME_CYCLES {
                1int
            } else {
                0
            },
            final(self).ppu.draw == (old(self).ppu.draw || old(self).ppu.ticks == FRAME_CYCLES),
            final(self).ppu.oam_ram == old(self).ppu.oam_ram,
    {
        let (vblank, stat) = self.ppu.step();
        self.request_if(vblank, INT_VBLANK);
        self.request_if(stat, INT_STAT);
    }

    /// The audio unit's cycle, the joypad interrupt, and the cartridge clock.
    #[verifier::rlimit(60)]
    fn tick_rest(&mut self)
        requires
            old(self).wf(),
        ensures
            final(self).wf(),
            final(self).int_flag == or_if(old(self).int_flag, old(self).joypad.interrupt, 16),
            *final(self) == (MemoryBus {
                apu: final(self).apu,
                joypad: final(self).joypad,
                cartridge: final(self).cartridge,
                int_flag: final(self).int_flag,
                ..*old(self)
            }),
            final(self).joypad == (Joypad { interrupt: false, ..old(self).joypad }),
            final(self).cartridge.clocked(&old(self).cartridge),
            old(self).apu.silent() ==> final(self).apu.silent(),
    {
        self.apu.tick();
        let joy = self.joypad.poll();
        self.request_if(joy, INT_JOYPAD);
        self.cartridge.increment_rtc();
    }

    /// Takes the bytes sent over the serial port so far.
    pub fn take_serial(&mut self) -> (r: Vec<u8>)
        ensures
            r@ == old(self).serial_out@,
            final(self).serial_out@.len() == 0,
            *final(self) == (MemoryBus { serial_out: final(self).serial_out, ..*old(self) }),
    {
        let mut out: Vec<u8> = Vec::new();
        core::mem::swap(&mut out, &mut self.serial_out);
        out
    }

    pub fn ppu_mut(&mut self) -> (r: &mut Ppu)
        ensures
            *r == old(self).ppu,
            *final(self) == (MemoryBus { ppu: *final(r), ..*old(self) }),
    {
        &mut self.ppu
    }
}

} // verus!
