//! The picture unit: video RAM, OAM, the LCD registers, mode scheduling and
//! scanline rendering into a 160 x 144 viewport.
use vstd::prelude::*;

verus! {

pub const WIDTH: usize = 160;
pub const HEIGHT: usize = 144;
/// Machine cycles per scanline.
pub const LINE_CYCLES: u16 = 114;
/// Machine cycles per frame (154 lines).
pub const FRAME_CYCLES: u16 = 17556;

/// The four modes; their numbers are what STAT's low two bits read.
#[derive(Copy, Clone, PartialEq, Eq, Structural)]
pub enum PpuMode {
    HBlank,
    VBlank,
    OamScan,
    Drawing,
}

pub open spec fn mode_bits(m: PpuMode) -> int {
    match m {
        PpuMode::HBlank => 0,
        PpuMode::VBlank => 1,
        PpuMode::OamScan => 2,
        PpuMode::Drawing => 3,
    }
}

/// LY during frame cycle `c`: the line number, except that it reads 0 from
/// the second cycle of line 153.
pub open spec fn ly_at(c: int) -> u8 {
    let line = c / (LINE_CYCLES as int);
    if line == 153 && c % (LINE_CYCLES as int) >= 1 { 0 } else { line as u8 }
}

/// The mode during frame cycle `c`.
pub open spec fn mode_at(c: int) -> PpuMode {
    if c / (LINE_CYCLES as int) >= 144 {
        PpuMode::VBlank
    } else if c % (LINE_CYCLES as int) < 20 {
        PpuMode::OamScan
    } else if c % (LINE_CYCLES as int) < 63 {
        PpuMode::Drawing
    } else {
        PpuMode::HBlank
    }
}

/// One OAM entry.
#[derive(Copy, Clone, PartialEq, Eq, Structural)]
pub struct Sprite {
    pub tile: u8,
    pub x: u8,
    pub y: u8,
    /// Drawn only over background colour 0.
    pub priority: bool,
    pub x_flip: bool,
    pub y_flip: bool,
    /// Uses OBP1 instead of OBP0.
    pub palette: bool,
}

impl Sprite {
    /// Decodes the four bytes of an OAM entry: Y, X, tile, attributes.
    pub fn from_oam_data(y: u8, x: u8, tile: u8, attr: u8) -> (r: Sprite)
        ensures
            r == (Sprite {
                tile,
                x,
                y,
                priority: (attr / 128) % 2 == 1,
                x_flip: (attr / 32) % 2 == 1,
                y_flip: (attr / 64) % 2 == 1,
                palette: (attr / 16) % 2 == 1,
            }),
    {
        Sprite {
            tile,
            x,
            y,
            priority: (attr / 128) % 2 == 1,
            x_flip: (attr / 32) % 2 == 1,
            y_flip: (attr / 64) % 2 == 1,
            palette: (attr / 16) % 2 == 1,
        }
    }
}

/// A viewport cell: a colour index and the palette in effect when it was
/// drawn.
#[derive(Copy, Clone, PartialEq, Eq, Structural)]
pub struct Pixel {
    pub color_idx: u8,
    pub palette: u8,
}

/// The shade (0 white to 3 black) of a colour index under a palette.
pub open spec fn shade(palette: u8, idx: u8) -> u8 {
    if idx == 0 {
        palette % 4
    } else if idx == 1 {
        (palette / 4) % 4
    } else if idx == 2 {
        (palette / 16) % 4
    } else {
        (palette / 64) % 4
    }
}

/// The grey level of a shade.
pub open spec fn shade_level(s: u8) -> u8 {
    if s == 0 { 0xff } else if s == 1 { 0xaa } else if s == 2 { 0x55 } else { 0x00 }
}

impl Pixel {
    /// The grey level of this cell: `(palette >> 2 * idx) & 3` mapped white,
    /// light, dark, black.
    pub fn color(&self) -> (r: u8)
        requires
            self.color_idx < 4,
        ensures
            r == shade_level(shade(self.palette, self.color_idx)),
    {
        let s = match self.color_idx {
            0 => self.palette % 4,
            1 => (self.palette / 4) % 4,
            2 => (self.palette / 16) % 4,
            _ => (self.palette / 64) % 4,
        };
        match s {
            0 => 0xff,
            1 => 0xaa,
            2 => 0x55,
            _ => 0x00,
        }
    }
}

/// Screen column `x` shows background column `8 * tile + i` exactly when
/// `x = (8 * tile + i - scx) mod 256`.
pub proof fn lemma_bg_column(scx: u8, tile: u8, i: u8, x: u16, x2: int)
    requires
        tile < 32,
        i < 8,
        x == (8 * tile + i + 256 - scx) % 256,
        0 <= x2 < 256,
    ensures
        (x + scx) % 256 == 8 * tile + i,
        ((x2 + scx) % 256) / 8 == tile && ((x2 + scx) % 256) % 8 == i ==> x2 == x,
{
    let c = 8 * tile + i;
    assert(c < 256);
    if ((x2 + scx) % 256) / 8 == tile && ((x2 + scx) % 256) % 8 == i {
        assert((x2 + scx) % 256 == c);
    }
}

/// `after` is the line's sprite list `before` after OAM entry `e` was
/// scanned: a showing entry, while fewer than ten are held, goes after every
/// sprite of equal or lower X and before every sprite of higher X.
pub open spec fn scan_step(after: Seq<Sprite>, before: Seq<Sprite>, e: Sprite, shows: bool) -> bool {
    if before.len() < 10 && shows {
        exists|k: int|
            0 <= k <= before.len() && after == #[trigger] before.insert(k, e) && (forall|j: int|
                0 <= j < k ==> before[j].x <= e.x) && (forall|j: int| k <= j < before.len() ==> before[j].x
                > e.x)
    } else {
        after == before
    }
}

/// The sprites are in ascending X order.
pub open spec fn sorted_by_x(s: Seq<Sprite>) -> bool {
    forall|i: int, j: int| 0 <= i < j < s.len() ==> s[i].x <= s[j].x
}

pub struct Ppu {
    pub vram: Vec<u8>,
    pub oam_ram: Vec<u8>,
    pub lcdc: u8,
    /// STAT's interrupt-select bits (3 to 6) as written; the other bits are
    /// computed on read.
    pub stat: u8,
    pub scy: u8,
    pub scx: u8,
    pub ly: u8,
    pub lyc: u8,
    pub bgp: u8,
    pub obp0: u8,
    pub obp1: u8,
    pub wy: u8,
    pub wx: u8,
    /// The window's own line counter.
    pub wc: u8,
    pub mode: PpuMode,
    pub stat_condition: bool,
    /// 160 x 144 cells, row-major.
    pub viewport: Vec<Pixel>,
    /// The sprites of the current line, at most ten, by ascending X.
    pub oam_sprites: Vec<Sprite>,
    /// The machine cycle within the frame.
    pub cycles: u16,
    pub ticks: u16,
    /// A frame is complete and not yet taken.
    pub draw: bool,
    /// The LCD was just switched on: show white until the next frame.
    pub first_lcd_frame: bool,
    /// Frames completed since power-on.
    pub completed: Ghost<nat>,
}

pub open spec fn lcd_on(lcdc: u8) -> bool {
    lcdc >= 128
}

impl Ppu {
    pub open spec fn wf(&self) -> bool {
        &&& self.inv()
        &&& self.ly == if self.cycles == 0 { 0 } else { ly_at(self.cycles - 1) }
        &&& self.cycles > 0 ==> self.mode == mode_at(self.cycles - 1)
    }

    /// The storage invariant, which holds also in the middle of a cycle.
    pub open spec fn inv(&self) -> bool {
        &&& self.vram.len() == 0x2000 && self.oam_ram.len() == 0xa0
        &&& self.viewport.len() == WIDTH * HEIGHT
        &&& forall|i: int| 0 <= i < self.viewport.len() ==> #[trigger] self.viewport@[i].color_idx < 4
        &&& self.oam_sprites.len() <= 10 && sorted_by_x(self.oam_sprites@)
        &&& self.stat % 8 == 0 && self.stat < 0x80
        &&& self.cycles < FRAME_CYCLES && self.ticks <= FRAME_CYCLES
        &&& self.ly < 154
    }

    /// The STAT condition: the coincidence source or the source of the
    /// current mode is selected.
    pub open spec fn stat_line(&self) -> bool {
        ||| (self.stat / 64) % 2 == 1 && self.ly == self.lyc
        ||| (self.stat / 8) % 2 == 1 && self.mode == PpuMode::HBlank
        ||| (self.stat / 16) % 2 == 1 && self.mode == PpuMode::VBlank
        ||| (self.stat / 32) % 2 == 1 && self.mode == PpuMode::OamScan
    }

    /// What STAT reads: bit 7 set, the select bits, the coincidence flag in
    /// bit 2 and the mode in bits 0-1.
    pub open spec fn spec_stat(&self) -> int {
        0x80 + self.stat + (if self.ly == self.lyc { 4int } else { 0 }) + mode_bits(self.mode)
    }

    /// The byte that `addr` reads: video RAM or an LCD register.
    pub open spec fn spec_read(&self, addr: u16) -> u8 {
        if 0x8000 <= addr < 0xa000 {
            self.vram@[addr - 0x8000]
        } else if addr == 0xff40 {
            self.lcdc
        } else if addr == 0xff41 {
            self.spec_stat() as u8
        } else if addr == 0xff42 {
            self.scy
        } else if addr == 0xff43 {
            self.scx
        } else if addr == 0xff44 {
            self.ly
        } else if addr == 0xff45 {
            self.lyc
        } else if addr == 0xff47 {
            self.bgp
        } else if addr == 0xff48 {
            self.obp0
        } else if addr == 0xff49 {
            self.obp1
        } else if addr == 0xff4a {
            self.wy
        } else if addr == 0xff4b {
            self.wx
        } else {
            0xff
        }
    }

    pub fn new() -> (r: Ppu)
        ensures
            r.wf(),
            r.lcdc == 0 && r.stat == 0 && r.ly == 0 && r.lyc == 0 && r.mode == PpuMode::HBlank,
            r.cycles == 0 && r.ticks == 0 && !r.draw && !r.stat_condition,
            r.vram@ == Seq::new(0x2000, |i: int| 0u8),
    {
        let mut viewport: Vec<Pixel> = Vec::new();
        while viewport.len() < WIDTH * HEIGHT
            invariant
                viewport.len() <= WIDTH * HEIGHT,
                forall|i: int| 0 <= i < viewport.len() ==> #[trigger] viewport@[i].color_idx < 4,
            decreases WIDTH * HEIGHT - viewport.len(),
        {
            viewport.push(Pixel { color_idx: 0, palette: 0 });
        }
        Ppu {
            vram: crate::bus::cartridge::filled(0x2000, 0),
            oam_ram: crate::bus::cartridge::filled(0xa0, 0),
            lcdc: 0,
            stat: 0,
            scy: 0,
            scx: 0,
            ly: 0,
            lyc: 0,
            bgp: 0,
            obp0: 0,
            obp1: 0,
            wy: 0,
            wx: 0,
            wc: 0,
            mode: PpuMode::HBlank,
            stat_condition: false,
            viewport,
            oam_sprites: Vec::new(),
            cycles: 0,
            ticks: 0,
            draw: false,
            first_lcd_frame: false,
            completed: Ghost(0),
        }
    }

    fn mode_number(&self) -> (r: u8)
        ensures
            r == mode_bits(self.mode),
    {
        match self.mode {
            PpuMode::HBlank => 0,
            PpuMode::VBlank => 1,
            PpuMode::OamScan => 2,
            PpuMode::Drawing => 3,
        }
    }

    /// Reads video RAM or an LCD register. STAT's low three bits always
    /// reflect the current coincidence of LY and LYC and the current mode.
    pub fn read(&self, addr: u16) -> (r: u8)
        requires
            self.wf(),
        ensures
            r == self.spec_read(addr),
            addr == 0xff41 ==> r % 8 == (if self.ly == self.lyc { 4int } else { 0 }) + mode_bits(self.mode),
    {
        if 0x8000 <= addr && addr < 0xa000 {
            self.read_vram(addr)
        } else {
            match addr {
                0xff40 => self.lcdc,
                0xff41 => 0x80 + self.stat + (if self.ly == self.lyc { 4u8 } else { 0 }) + self.mode_number(),
                0xff42 => self.scy,
                0xff43 => self.scx,
                0xff44 => self.ly,
                0xff45 => self.lyc,
                0xff47 => self.bgp,
                0xff48 => self.obp0,
                0xff49 => self.obp1,
                0xff4a => self.wy,
                0xff4b => self.wx,
                _ => 0xff,
            }
        }
    }

    /// An OAM byte; OAM reads 0xFF during OAM scan and drawing.
    pub fn read_oam(&self, slot: usize) -> (r: u8)
        requires
            self.wf(),
            slot < 0xa0,
        ensures
            r == if self.mode == PpuMode::OamScan || self.mode == PpuMode::Drawing {
                0xffu8
            } else {
                self.oam_ram@[slot as int]
            },
    {
        match self.mode {
            PpuMode::OamScan | PpuMode::Drawing => 0xff,
            _ => self.oam_ram[slot],
        }
    }

    fn read_vram(&self, addr: u16) -> (r: u8)
        requires
            self.wf(),
            0x8000 <= addr < 0xa000,
        ensures
            r == self.vram@[addr - 0x8000],
    {
        self.vram[(addr - 0x8000) as usize]
    }

    /// Writes video RAM or an LCD register; LY is read-only. STAT keeps only
    /// bits 3 to 6; switching the LCD on marks the first frame, which shows
    /// white.
    pub fn write(&mut self, addr: u16, val: u8)
        requires
            old(self).wf(),
        ensures
            final(self).wf(),
            0x8000 <= addr < 0xa000 ==> final(self).vram@ == old(self).vram@.update(addr - 0x8000, val),
            addr == 0xff41 ==> final(self).stat == (val / 8 % 16) * 8,
            addr == 0xff41 ==> final(self).spec_read(addr) as int == 0x80 + (val / 8 % 16) * 8 + (if old(self).ly
                == old(self).lyc { 4int } else { 0 }) + mode_bits(old(self).mode),
            addr == 0xff40 || (0xff42 <= addr <= 0xff4b && addr != 0xff44 && addr != 0xff46) ==> final(self).spec_read(addr) == val,
            addr == 0xff40 ==> final(self).first_lcd_frame == (old(self).first_lcd_frame || (lcd_on(val) && !lcd_on(old(self).lcdc))),
            final(self).mode == old(self).mode && final(self).cycles == old(self).cycles,
            final(self).oam_ram == old(self).oam_ram,
            final(self).draw == old(self).draw && final(self).completed == old(self).completed,
            final(self).ticks == old(self).ticks && final(self).ly == old(self).ly,
    {
        if 0x8000 <= addr && addr < 0xa000 {
            self.vram.set((addr - 0x8000) as usize, val);
            return;
        }
        match addr {
            0xff40 => {
                if val >= 128 && self.lcdc < 128 {
                    self.first_lcd_frame = true;
                }
                self.lcdc = val;
            },
            0xff41 => self.stat = (val / 8 % 16) * 8,
            0xff42 => self.scy = val,
            0xff43 => self.scx = val,
            0xff45 => self.lyc = val,
            0xff47 => self.bgp = val,
            0xff48 => self.obp0 = val,
            0xff49 => self.obp1 = val,
            0xff4a => self.wy = val,
            0xff4b => self.wx = val,
            _ => {},
        }
    }

    /// A CPU write to OAM; dropped during OAM scan and drawing.
    pub fn write_oam(&mut self, slot: u8, val: u8)
        requires
            old(self).wf(),
            slot < 0xa0,
        ensures
            final(self).wf(),
            final(self).oam_ram@ == if old(self).mode == PpuMode::OamScan || old(self).mode
                == PpuMode::Drawing {
                old(self).oam_ram@
            } else {
                old(self).oam_ram@.update(slot as int, val)
            },
            *final(self) == (Ppu { oam_ram: final(self).oam_ram, ..*old(self) }),
    {
        match self.mode {
            PpuMode::OamScan | PpuMode::Drawing => {},
            _ => self.write_dma(slot, val),
        }
    }

    /// A DMA write to OAM, which is never blocked.
    pub fn write_dma(&mut self, oam_slot: u8, val: u8)
        requires
            old(self).wf(),
            oam_slot < 0xa0,
        ensures
            final(self).wf(),
            final(self).oam_ram@ == old(self).oam_ram@.update(oam_slot as int, val),
            *final(self) == (Ppu { oam_ram: final(self).oam_ram, ..*old(self) }),
    {
        self.oam_ram.set(oam_slot as usize, val);
    }

    /// Takes the completed-frame flag.
    pub fn draw_check(&mut self) -> (r: bool)
        ensures
            r == old(self).draw,
            *final(self) == (Ppu { draw: false, ..*old(self) }),
    {
        let r = self.draw;
        self.draw = false;
        r
    }

    /// The line's sprite list went from `start` to its current value by
    /// scanning OAM entries `2 * dot` and `2 * dot + 1`.
    pub open spec fn scanned_line(&self, start: Seq<Sprite>, dot: int) -> bool {
        exists|mid: Seq<Sprite>|
            #[trigger] scan_step(mid, start, self.oam_entry(2 * dot), self.shows(2 * dot)) && scan_step(
                self.oam_sprites@,
                mid,
                self.oam_entry(2 * dot + 1),
                self.shows(2 * dot + 1),
            )
    }

    /// `self` is `pre` after one cycle with the LCD on: LY set at the start
    /// of each line and cleared at dot 1 of line 153; the line's sprites
    /// scanned two OAM entries per dot over dots 0-19 of a visible line
    /// (the list emptied at dot 0); the line rendered at dot 20.
    pub open spec fn line_step(&self, pre: &Ppu) -> bool {
        let line = pre.cycles / LINE_CYCLES;
        let dot = pre.cycles % LINE_CYCLES;
        &&& self.ly == if dot == 0 {
            line as u8
        } else if pre.cycles == 153 * LINE_CYCLES + 1 {
            0
        } else {
            pre.ly
        }
        &&& if line < 144 && dot == 20 && pre.ly < 144 {
            self.drew_line(&Ppu { mode: PpuMode::Drawing, ..*pre })
        } else {
            self.viewport == pre.viewport
        }
        &&& if line < 144 && dot < 20 {
            self.scanned_line(if dot == 0 { Seq::empty() } else { pre.oam_sprites@ }, dot as int)
        } else {
            self.oam_sprites@ == pre.oam_sprites@
        }
    }

    /// One machine cycle. With the LCD on, runs the scanline schedule and
    /// returns (VBlank interrupt, STAT interrupt); with it off, holds LY at 0
    /// in HBlank. Every 17556 cycles the completed-frame flag is raised.
    pub fn step(&mut self) -> (r: (bool, bool))
        requires
            old(self).wf(),
        ensures
            final(self).wf(),
            old(self).ticks == FRAME_CYCLES ==> final(self).draw,
            old(self).ticks != FRAME_CYCLES ==> final(self).draw == old(self).draw,
            final(self).completed@ == old(self).completed@ + if old(self).ticks == FRAME_CYCLES {
                1int
            } else {
                0
            },
            lcd_on(old(self).lcdc) ==> final(self).line_step(old(self)),
            final(self).oam_ram == old(self).oam_ram,
            lcd_on(old(self).lcdc) ==> {
                &&& final(self).ly == ly_at(old(self).cycles as int)
                &&& old(self).cycles % LINE_CYCLES == 0 ==> final(self).ly == old(self).cycles / LINE_CYCLES
                &&& old(self).cycles == 153 * LINE_CYCLES + 1 ==> final(self).ly == 0
                &&& final(self).cycles == (old(self).cycles + 1) % (FRAME_CYCLES as int)
                &&& final(self).mode == mode_at(old(self).cycles as int)
                &&& r.0 == (old(self).cycles == 144 * LINE_CYCLES)
                &&& final(self).stat_condition == final(self).stat_line()
                &&& r.1 == (final(self).stat_line() && !old(self).stat_condition)
            },
            !lcd_on(old(self).lcdc) ==> final(self).ly == 0 && final(self).mode == PpuMode::HBlank
                && final(self).cycles == 0 && r == (false, false),
            final(self).lcdc == old(self).lcdc && final(self).lyc == old(self).lyc,
            final(self).stat == old(self).stat,
    {
        let frame_done = self.ticks == FRAME_CYCLES;
        if self.lcdc >= 128 {
            let r = self.cycle();
            let ghost cycled = *self;
            if frame_done {
                self.draw = true;
                self.completed = Ghost(self.completed@ + 1);
            }
            self.ticks = self.cycles + 1;
            self.cycles = (self.cycles + 1) % FRAME_CYCLES;
            proof {
                assert(self.ly == cycled.ly && self.viewport == cycled.viewport);
                assert(self.oam_sprites == cycled.oam_sprites && self.oam_ram == cycled.oam_ram);
                assert(forall|i: int| #[trigger] self.oam_entry(i) == cycled.oam_entry(i));
                assert(forall|i: int| #[trigger] self.shows(i) == cycled.shows(i));
                assert(forall|p: Ppu| #[trigger] self.drew_line(&p) == cycled.drew_line(&p));
                let line = old(self).cycles / LINE_CYCLES;
                let dot = old(self).cycles % LINE_CYCLES;
                if line < 144 && dot < 20 {
                    let start = if dot == 0 { Seq::empty() } else { old(self).oam_sprites@ };
                    let d = dot as int;
                    assert(cycled.scanned_line(start, d));
                    let mid = choose|mid: Seq<Sprite>|
                        #[trigger] scan_step(mid, start, cycled.oam_entry(2 * d), cycled.shows(2 * d))
                            && scan_step(cycled.oam_sprites@, mid, cycled.oam_entry(2 * d + 1), cycled.shows(2 * d + 1));
                    assert(scan_step(mid, start, self.oam_entry(2 * d), self.shows(2 * d)));
                    assert(self.scanned_line(start, d));
                }
            }
            r
        } else {
            self.cycles = 0;
            self.ly = 0;
            self.mode = PpuMode::HBlank;
            if frame_done {
                self.draw = true;
                self.completed = Ghost(self.completed@ + 1);
                self.ticks = 1;
            } else if self.ticks < FRAME_CYCLES {
                self.ticks = self.ticks + 1;
            }
            (false, false)
        }
    }

    fn cycle(&mut self) -> (r: (bool, bool))
        requires
            old(self).wf(),
        ensures
            final(self).inv(),
            final(self).cycles == old(self).cycles && final(self).ticks == old(self).ticks,
            final(self).draw == old(self).draw,
            final(self).mode == mode_at(old(self).cycles as int),
            old(self).cycles % LINE_CYCLES == 0 ==> final(self).ly == old(self).cycles / LINE_CYCLES,
            old(self).cycles == 153 * LINE_CYCLES + 1 ==> final(self).ly == 0,
            r.0 == (old(self).cycles == 144 * LINE_CYCLES),
            final(self).stat_condition == final(self).stat_line(),
            r.1 == (final(self).stat_line() && !old(self).stat_condition),
            final(self).lcdc == old(self).lcdc && final(self).lyc == old(self).lyc,
            final(self).stat == old(self).stat,
            final(self).completed == old(self).completed,
            final(self).oam_ram == old(self).oam_ram,
            final(self).line_step(old(self)),
    {
        let mut vblank = false;
        let ghost mut scan_mid: Seq<Sprite> = Seq::empty();
        let clocks = self.cycles % LINE_CYCLES;
        let scanline = self.cycles / LINE_CYCLES;
        if clocks == 0 {
            self.ly = scanline as u8;
            if scanline == 0 {
                self.wc = 0;
            }
        }
        if scanline < 144 {
            if clocks == 0 {
                self.oam_sprites.clear();
                self.mode = PpuMode::OamScan;
            } else if clocks == 20 {
                self.mode = PpuMode::Drawing;
                if self.ly < 144 {
                    assert(*self == (Ppu { mode: PpuMode::Drawing, ..*old(self) }));
                    self.draw_line();
                }
            } else if clocks == 63 {
                self.mode = PpuMode::HBlank;
            }
            if clocks < 20 {
                let first = 2 * clocks as usize;
                let ghost start = self.oam_sprites@;
                if clocks == 0 {
                    assert(start =~= Seq::<Sprite>::empty());
                }
                self.scan_sprite(first);
                proof {
                    scan_mid = self.oam_sprites@;
                }
                self.scan_sprite(first + 1);
                assert(scan_step(scan_mid, start, self.oam_entry(2 * clocks), self.shows(2 * clocks)));
            }
        } else if scanline == 144 && clocks == 0 {
            self.mode = PpuMode::VBlank;
            vblank = true;
        } else if scanline == 153 && clocks == 1 {
            self.ly = 0;
        }
        let stat = self.check_stat();
        proof {
            let line = old(self).cycles / LINE_CYCLES;
            let dot = old(self).cycles % LINE_CYCLES;
            assert(self.ly == if dot == 0 {
                line as u8
            } else if old(self).cycles == 153 * LINE_CYCLES + 1 {
                0
            } else {
                old(self).ly
            });
            if line < 144 && dot == 20 && old(self).ly < 144 {
                assert(self.drew_line(&Ppu { mode: PpuMode::Drawing, ..*old(self) }));
            } else {
                assert(self.viewport == old(self).viewport);
            }
            if !(line < 144 && dot < 20) {
                assert(self.oam_sprites@ == old(self).oam_sprites@);
            } else {
                let start = if dot == 0 { Seq::empty() } else { old(self).oam_sprites@ };
                let d = dot as int;
                assert(scan_step(scan_mid, start, self.oam_entry(2 * d), self.shows(2 * d)));
                assert(scan_step(self.oam_sprites@, scan_mid, self.oam_entry(2 * d + 1), self.shows(2 * d + 1)));
                assert(self.scanned_line(start, d));
            }
        }
        (vblank, stat)
    }

    /// Updates the STAT condition; returns whether it rose.
    fn check_stat(&mut self) -> (r: bool)
        requires
            old(self).inv(),
        ensures
            *final(self) == (Ppu { stat_condition: old(self).stat_line(), ..*old(self) }),
            r == (old(self).stat_line() && !old(self).stat_condition),
    {
        let old_condition = self.stat_condition;
        let new = ((self.stat / 64) % 2 == 1 && self.ly == self.lyc) || ((self.stat / 8) % 2 == 1
            && self.mode == PpuMode::HBlank) || ((self.stat / 16) % 2 == 1 && self.mode
            == PpuMode::VBlank) || ((self.stat / 32) % 2 == 1 && self.mode == PpuMode::OamScan);
        self.stat_condition = new;
        new && !old_condition
    }

    /// The sprite height: 16 with LCDC bit 2, else 8.
    pub open spec fn sprite_height(&self) -> int {
        if (self.lcdc / 4) % 2 == 1 { 16 } else { 8 }
    }

    /// OAM entry `idx` decoded.
    pub open spec fn oam_entry(&self, idx: int) -> Sprite {
        let a = self.oam_ram@[4 * idx + 3];
        Sprite {
            tile: self.oam_ram@[4 * idx + 2],
            x: self.oam_ram@[4 * idx + 1],
            y: self.oam_ram@[4 * idx],
            priority: (a / 128) % 2 == 1,
            x_flip: (a / 32) % 2 == 1,
            y_flip: (a / 64) % 2 == 1,
            palette: (a / 16) % 2 == 1,
        }
    }

    /// OAM entry `idx` shows on the current line: X is nonzero and LY + 16
    /// lies in [Y, Y + height).
    pub open spec fn shows(&self, idx: int) -> bool {
        self.oam_entry(idx).x > 0 && self.oam_entry(idx).y <= self.ly + 16 < self.oam_entry(idx).y
            + self.sprite_height()
    }

    /// OAM entry `idx` if it shows on the current line.
    pub fn fetch_sprite(&self, idx: usize) -> (r: Option<Sprite>)
        requires
            self.inv(),
            idx < 40,
        ensures
            r is Some <==> self.shows(idx as int),
            r matches Some(s) ==> s == self.oam_entry(idx as int),
    {
        let height: u16 = if (self.lcdc / 4) % 2 == 1 { 16 } else { 8 };
        let sprite = Sprite::from_oam_data(
            self.oam_ram[4 * idx],
            self.oam_ram[4 * idx + 1],
            self.oam_ram[4 * idx + 2],
            self.oam_ram[4 * idx + 3],
        );
        let y = self.ly as u16 + 16;
        if sprite.x > 0 && sprite.y as u16 <= y && y < sprite.y as u16 + height {
            Some(sprite)
        } else {
            None
        }
    }

    /// Adds OAM entry `idx` to the line's sprites if it shows and fewer than
    /// ten are held; the list stays ordered by X, after sprites of equal X.
    fn scan_sprite(&mut self, idx: usize)
        requires
            old(self).inv(),
            idx < 40,
        ensures
            final(self).inv(),
            *final(self) == (Ppu { oam_sprites: final(self).oam_sprites, ..*old(self) }),
            scan_step(
                final(self).oam_sprites@,
                old(self).oam_sprites@,
                old(self).oam_entry(idx as int),
                old(self).shows(idx as int),
            ),
    {
        if self.oam_sprites.len() < 10 {
            if let Some(sprite) = self.fetch_sprite(idx) {
                let ghost before = self.oam_sprites@;
                let mut k: usize = 0;
                while k < self.oam_sprites.len() && self.oam_sprites[k].x <= sprite.x
                    invariant
                        k <= self.oam_sprites.len(),
                        self.oam_sprites@ == before,
                        forall|j: int| 0 <= j < k ==> before[j].x <= sprite.x,
                    decreases self.oam_sprites.len() - k,
                {
                    k = k + 1;
                }
                self.oam_sprites.insert(k, sprite);
                assert forall|j: int| k <= j < before.len() implies before[j].x > sprite.x by {
                    assert(before[j].x >= before[k as int].x);
                }
                assert(self.oam_sprites@ == before.insert(k as int, sprite));
                assert(sorted_by_x(self.oam_sprites@)) by {
                    assert forall|i: int, j: int| 0 <= i < j < self.oam_sprites@.len() implies
                        self.oam_sprites@[i].x <= self.oam_sprites@[j].x by {
                        if j < k {
                        } else if i < k && j == k {
                        } else if i < k {
                            assert(self.oam_sprites@[j] == before[j - 1]);
                        } else if i == k {
                            assert(before[j - 1].x >= before[k as int].x);
                        } else {
                            assert(self.oam_sprites@[j] == before[j - 1]);
                            assert(self.oam_sprites@[i] == before[i - 1]);
                        }
                    }
                }
            }
        }
    }

    /// Colour index `k` (0-7, left to right) of row `row` of a tile, from
    /// the two bitplane bytes.
    pub open spec fn tile_pixel(&self, tile_num: u8, row: u8, is_sprite: bool, k: int) -> u8 {
        let base = self.tile_base(tile_num, is_sprite);
        let lo = self.vram@[base + 2 * row];
        let hi = self.vram@[base + 2 * row + 1];
        (((hi >> ((7 - k) as u8)) & 1) * 2 + ((lo >> ((7 - k) as u8)) & 1)) as u8
    }

    /// Index in video RAM of a tile's data: unsigned from 0x8000 with LCDC
    /// bit 4 (and always for sprites), else signed from 0x9000.
    pub open spec fn tile_base(&self, tile_num: u8, is_sprite: bool) -> int {
        if (self.lcdc / 16) % 2 == 1 || is_sprite {
            16 * tile_num
        } else if tile_num < 128 {
            0x1000 + 16 * tile_num
        } else {
            16 * tile_num
        }
    }

    /// The eight colour indices of a tile row.
    fn decode_tile_row(&self, tile_num: u8, row_num: u8, is_sprite: bool) -> (r: Vec<u8>)
        requires
            self.inv(),
            row_num < 16,
        ensures
            r.len() == 8,
            forall|k: int| 0 <= k < 8 ==> r@[k] == self.tile_pixel(tile_num, row_num, is_sprite, k),
            forall|k: int| 0 <= k < 8 ==> #[trigger] r@[k] < 4,
    {
        let base: usize = if (self.lcdc / 16) % 2 == 1 || is_sprite {
            16 * tile_num as usize
        } else if tile_num < 128 {
            0x1000 + 16 * tile_num as usize
        } else {
            16 * tile_num as usize
        };
        let lo = self.vram[base + 2 * row_num as usize];
        let hi = self.vram[base + 2 * row_num as usize + 1];
        let mut row: Vec<u8> = Vec::new();
        let mut k: u8 = 0;
        while k < 8
            invariant
                k <= 8,
                row.len() == k,
                lo == self.vram@[self.tile_base(tile_num, is_sprite) + 2 * row_num],
                hi == self.vram@[self.tile_base(tile_num, is_sprite) + 2 * row_num + 1],
                forall|j: int| 0 <= j < k ==> row@[j] == self.tile_pixel(tile_num, row_num, is_sprite, j),
                forall|j: int| 0 <= j < k ==> #[trigger] row@[j] < 4,
            decreases 8 - k,
        {
            let h = (hi >> (7 - k)) & 1;
            let l = (lo >> (7 - k)) & 1;
            proof {
                crate::bits::lemma_and_one_le(hi >> (7 - k));
                crate::bits::lemma_and_one_le(lo >> (7 - k));
            }
            row.push(h * 2 + l);
            k = k + 1;
        }
        row
    }

    /// The tile number at column `tile` of tile-map row `line / 8`, in the
    /// map at 0x9C00 (`high_map`) or 0x9800.
    pub open spec fn map_tile(&self, high_map: bool, line: u8, tile: int) -> u8 {
        self.vram@[(if high_map { 0x1c00int } else { 0x1800 }) + 32 * (line / 8) + tile]
    }

    /// The background cell at screen column `x` of line LY: background
    /// column `(x + SCX) mod 256` of background line `(SCY + LY) mod 256`.
    pub open spec fn bg_pixel(&self, x: int) -> Pixel {
        let y = ((self.scy + self.ly) % 256) as u8;
        let bx = (x + self.scx) % 256;
        Pixel {
            color_idx: self.tile_pixel(self.map_tile((self.lcdc / 8) % 2 == 1, y, bx / 8), y % 8, false, bx % 8),
            palette: self.bgp,
        }
    }

    /// Row `line % 8` of the tile at column `tile` of tile-map row `line / 8`.
    fn get_tile_row(&self, high_map: bool, line: u8, tile: u8) -> (r: Vec<u8>)
        requires
            self.inv(),
            tile < 32,
        ensures
            r.len() == 8,
            forall|k: int| 0 <= k < 8 ==> #[trigger] r@[k] < 4,
            forall|k: int| 0 <= k < 8 ==> r@[k] == self.tile_pixel(self.map_tile(high_map, line, tile as int), line % 8, false, k),
    {
        let map: usize = if high_map { 0x1c00 } else { 0x1800 };
        let tile_num = self.vram[map + 32 * (line as usize / 8) + tile as usize];
        self.decode_tile_row(tile_num, line % 8, false)
    }

    /// The index of viewport cell (`x`, row LY).
    pub open spec fn cell(&self, x: int) -> int {
        self.ly * (WIDTH as int) + x
    }

    /// Renders line LY: background and window when LCDC bit 0 is set, the
    /// window also with bit 5 once LY reaches WY, sprites with bit 1.
    fn draw_line(&mut self)
        requires
            old(self).inv(),
            old(self).ly < 144,
        ensures
            final(self).inv(),
            *final(self) == (Ppu { viewport: final(self).viewport, wc: final(self).wc, ..*old(self) }),
            forall|i: int| 0 <= i < WIDTH * HEIGHT && !(old(self).cell(0) <= i < old(self).cell(
                WIDTH as int,
            )) ==> final(self).viewport@[i] == old(self).viewport@[i],
            old(self).lcdc % 2 == 1 ==> forall|x: int| 0 <= x < WIDTH && ((old(self).lcdc / 2) % 2 == 0
                || !Self::covered(old(self).oam_sprites@, old(self).oam_sprites.len() as int, x))
                ==> #[trigger] final(self).viewport@[old(self).cell(x)] == if (old(self).lcdc / 32) % 2 == 1
                && old(self).ly >= old(self).wy && x + 7 >= old(self).wx {
                old(self).win_pixel(x)
            } else {
                old(self).bg_pixel(x)
            },
            final(self).drew_line(old(self)),
    {
        if self.lcdc % 2 == 1 {
            self.draw_bg_line();
            let ghost mid = *self;
            if (self.lcdc / 32) % 2 == 1 && self.ly >= self.wy {
                self.draw_win_line();
                assert forall|x: int| 0 <= x < WIDTH implies #[trigger] self.viewport@[old(self).cell(x)]
                    == if x + 7 >= old(self).wx {
                    old(self).win_pixel(x)
                } else {
                    old(self).bg_pixel(x)
                } by {
                    assert(mid.cell(x) == old(self).cell(x));
                    assert(mid.win_pixel(x) == old(self).win_pixel(x));
                    assert(mid.viewport@[mid.cell(x)] == old(self).bg_pixel(x));
                }
            }
        }
        let ghost mid2 = *self;
        assert forall|x: int| 0 <= x < WIDTH implies #[trigger] mid2.viewport@[old(self).cell(x)]
            == old(self).line_base(x) by {
            assert(mid2.cell(x) == old(self).cell(x));
        }
        if (self.lcdc / 2) % 2 == 1 {
            self.draw_sprite_line();
            assert forall|x: int| 0 <= x < WIDTH implies #[trigger] old(self).sprite_cell(
                self.viewport@[old(self).cell(x)],
                old(self).line_base(x),
            ) by {
                assert(mid2.cell(x) == old(self).cell(x));
                assert(mid2.sprite_cell(self.viewport@[mid2.cell(x)], mid2.viewport@[mid2.cell(x)]));
                assert(mid2.viewport@[old(self).cell(x)] == old(self).line_base(x));
            }
            assert forall|x: int| 0 <= x < WIDTH && !Self::covered(old(self).oam_sprites@, old(self).oam_sprites.len() as int, x)
                implies #[trigger] self.viewport@[old(self).cell(x)] == mid2.viewport@[old(self).cell(x)] by {
                assert(mid2.cell(x) == old(self).cell(x));
            }
        }
    }

    /// What line LY's cell `x` holds before sprites are drawn: window or
    /// background while LCDC bit 0 is set, else what it held.
    pub open spec fn line_base(&self, x: int) -> Pixel {
        if self.lcdc % 2 == 1 {
            if (self.lcdc / 32) % 2 == 1 && self.ly >= self.wy && x + 7 >= self.wx {
                self.win_pixel(x)
            } else {
                self.bg_pixel(x)
            }
        } else {
            self.viewport@[self.cell(x)]
        }
    }

    /// `self` holds `pre` with line LY rendered: other rows kept; each cell
    /// is its base, or with LCDC bit 1 an opaque sprite pixel, and cells no
    /// sprite spans keep their base.
    pub open spec fn drew_line(&self, pre: &Ppu) -> bool {
        &&& self.viewport.len() == pre.viewport.len()
        &&& forall|i: int| 0 <= i < WIDTH * HEIGHT && !(pre.cell(0) <= i < pre.cell(WIDTH as int))
            ==> self.viewport@[i] == pre.viewport@[i]
        &&& forall|x: int| 0 <= x < WIDTH ==> #[trigger] pre.sprite_cell(self.viewport@[pre.cell(x)], pre.line_base(x))
        &&& forall|x: int| 0 <= x < WIDTH && ((pre.lcdc / 2) % 2 == 0 || !Self::covered(pre.oam_sprites@, pre.oam_sprites.len() as int, x))
            ==> #[trigger] self.viewport@[pre.cell(x)] == pre.line_base(x)
    }

    /// Sets viewport cell (`x`, row LY).
    fn plot(&mut self, x: usize, p: Pixel)
        requires
            old(self).inv(),
            old(self).ly < 144,
            x < WIDTH,
            p.color_idx < 4,
        ensures
            final(self).inv(),
            *final(self) == (Ppu { viewport: final(self).viewport, ..*old(self) }),
            final(self).viewport@ == old(self).viewport@.update(old(self).cell(x as int), p),
    {
        let i = self.ly as usize * WIDTH + x;
        self.viewport.set(i, p);
    }

    #[verifier::rlimit(80)]
    /// Background: screen X of tile column `t`, pixel `i` is
    /// `(8t + i - SCX) mod 256`, drawn when under 160.
    fn draw_bg_line(&mut self)
        requires
            old(self).inv(),
            old(self).ly < 144,
        ensures
            final(self).inv(),
            *final(self) == (Ppu { viewport: final(self).viewport, ..*old(self) }),
            forall|i: int| 0 <= i < WIDTH * HEIGHT && !(old(self).cell(0) <= i < old(self).cell(
                WIDTH as int,
            )) ==> final(self).viewport@[i] == old(self).viewport@[i],
            forall|x: int| 0 <= x < WIDTH ==> #[trigger] final(self).viewport@[old(self).cell(x)]
                == old(self).bg_pixel(x),
    {
        let high_map = (self.lcdc / 8) % 2 == 1;
        let y = self.scy.wrapping_add(self.ly);
        let ghost pre = *self;
        let mut tile: u8 = 0;
        while tile < 32
            invariant
                self.inv(),
                tile <= 32,
                *self == (Ppu { viewport: self.viewport, ..pre }),
                pre.inv(),
                pre.ly < 144,
                forall|i: int| 0 <= i < WIDTH * HEIGHT && !(pre.cell(0) <= i < pre.cell(WIDTH as int))
                    ==> self.viewport@[i] == pre.viewport@[i],
                high_map == ((pre.lcdc / 8) % 2 == 1),
                y == ((pre.scy + pre.ly) % 256) as u8,
                forall|x: int| 0 <= x < WIDTH && ((x + pre.scx) % 256) / 8 < tile ==> #[trigger] self.viewport@[pre.cell(x)] == pre.bg_pixel(x),
            decreases 32 - tile,
        {
            let row = self.get_tile_row(high_map, y, tile);
            let mut i: u8 = 0;
            while i < 8
                invariant
                    self.inv(),
                    tile < 32,
                    i <= 8,
                    row.len() == 8,
                    forall|k: int| 0 <= k < 8 ==> #[trigger] row@[k] < 4,
                    *self == (Ppu { viewport: self.viewport, ..pre }),
                    pre.inv(),
                    pre.ly < 144,
                    forall|j: int| 0 <= j < WIDTH * HEIGHT && !(pre.cell(0) <= j < pre.cell(WIDTH as int))
                        ==> self.viewport@[j] == pre.viewport@[j],
                    high_map == ((pre.lcdc / 8) % 2 == 1),
                    y == ((pre.scy + pre.ly) % 256) as u8,
                    forall|k: int| 0 <= k < 8 ==> row@[k] == pre.tile_pixel(pre.map_tile(high_map, y, tile as int), y % 8, false, k),
                    forall|x: int| 0 <= x < WIDTH && (((x + pre.scx) % 256) / 8 < tile || (((x + pre.scx) % 256) / 8 == tile && ((x + pre.scx) % 256) % 8 < i)) ==> #[trigger] self.viewport@[pre.cell(x)] == pre.bg_pixel(x),
                decreases 8 - i,
            {
                let x = (8 * tile as u16 + i as u16 + 256 - self.scx as u16) % 256;
                if x < 160 {
                    self.plot(x as usize, Pixel { color_idx: row[i as usize], palette: self.bgp });
                }
                proof {
                    assert forall|x2: int| 0 <= x2 < WIDTH && (((x2 + pre.scx) % 256) / 8 < tile || (((x2 + pre.scx) % 256) / 8 == tile && ((x2 + pre.scx) % 256) % 8 < i + 1)) implies #[trigger] self.viewport@[pre.cell(x2)] == pre.bg_pixel(x2) by {
                        lemma_bg_column(pre.scx, tile, i, x, x2);
                        if x2 != x {
                            assert(pre.cell(x2) != pre.cell(x as int));
                        }
                    }
                }
                i = i + 1;
            }
            tile = tile + 1;
        }
    }

    /// The window cell at screen column `x` of line LY: window column
    /// `x + 7 - WX` of window line WC.
    pub open spec fn win_pixel(&self, x: int) -> Pixel {
        let wx = x + 7 - self.wx;
        Pixel {
            color_idx: self.tile_pixel(self.map_tile((self.lcdc / 64) % 2 == 1, self.wc, wx / 8), self.wc % 8, false, wx % 8),
            palette: self.bgp,
        }
    }

    #[verifier::rlimit(80)]
    /// Window: tile column `t`, pixel `i` lands at X = 8t + i + WX - 7. The
    /// window line counter advances when some window pixel was drawn, which
    /// is exactly when WX is at most 166.
    fn draw_win_line(&mut self)
        requires
            old(self).inv(),
            old(self).ly < 144,
        ensures
            final(self).inv(),
            *final(self) == (Ppu { viewport: final(self).viewport, wc: final(self).wc, ..*old(self) }),
            forall|i: int| 0 <= i < WIDTH * HEIGHT && !(old(self).cell(0) <= i < old(self).cell(
                WIDTH as int,
            )) ==> final(self).viewport@[i] == old(self).viewport@[i],
            forall|x: int| 0 <= x < WIDTH ==> #[trigger] final(self).viewport@[old(self).cell(x)]
                == if x + 7 >= old(self).wx {
                old(self).win_pixel(x)
            } else {
                old(self).viewport@[old(self).cell(x)]
            },
            final(self).wc == if old(self).wx <= 166 {
                ((old(self).wc + 1) % 256) as u8
            } else {
                old(self).wc
            },
    {
        let high_map = (self.lcdc / 64) % 2 == 1;
        let ghost pre = *self;
        let mut tile: u8 = 0;
        while tile < 32
            invariant
                self.inv(),
                tile <= 32,
                *self == (Ppu { viewport: self.viewport, ..pre }),
                pre.ly < 144,
                high_map == ((pre.lcdc / 64) % 2 == 1),
                forall|i: int| 0 <= i < WIDTH * HEIGHT && !(pre.cell(0) <= i < pre.cell(WIDTH as int))
                    ==> self.viewport@[i] == pre.viewport@[i],
                forall|x: int| 0 <= x < WIDTH ==> #[trigger] self.viewport@[pre.cell(x)] == if x + 7
                    >= pre.wx && (x + 7 - pre.wx) / 8 < tile {
                    pre.win_pixel(x)
                } else {
                    pre.viewport@[pre.cell(x)]
                },
            decreases 32 - tile,
        {
            let row = self.get_tile_row(high_map, self.wc, tile);
            let mut i: u8 = 0;
            while i < 8
                invariant
                    self.inv(),
                    tile < 32,
                    i <= 8,
                    row.len() == 8,
                    forall|k: int| 0 <= k < 8 ==> #[trigger] row@[k] < 4,
                    forall|k: int| 0 <= k < 8 ==> row@[k] == pre.tile_pixel(pre.map_tile(high_map, pre.wc, tile as int), pre.wc % 8, false, k),
                    *self == (Ppu { viewport: self.viewport, ..pre }),
                    pre.ly < 144,
                    high_map == ((pre.lcdc / 64) % 2 == 1),
                    forall|j: int| 0 <= j < WIDTH * HEIGHT && !(pre.cell(0) <= j < pre.cell(WIDTH as int))
                        ==> self.viewport@[j] == pre.viewport@[j],
                    forall|x: int| 0 <= x < WIDTH ==> #[trigger] self.viewport@[pre.cell(x)] == if x + 7
                        >= pre.wx && ((x + 7 - pre.wx) / 8 < tile || ((x + 7 - pre.wx) / 8 == tile && (x + 7 - pre.wx) % 8 < i)) {
                        pre.win_pixel(x)
                    } else {
                        pre.viewport@[pre.cell(x)]
                    },
                decreases 8 - i,
            {
                let x: u16 = 8 * tile as u16 + i as u16 + self.wx as u16;
                if x >= 7 && x - 7 < 160 {
                    self.plot((x - 7) as usize, Pixel { color_idx: row[i as usize], palette: self.bgp });
                    proof {
                        let xs = (x - 7) as int;
                        assert(xs + 7 - pre.wx == 8 * tile + i);
                        assert(0 <= xs < WIDTH && xs + 7 >= pre.wx && (xs + 7 - pre.wx) / 8 == tile && (xs + 7 - pre.wx) % 8 < i + 1);
                    }
                }
                proof {
                    assert forall|x2: int| 0 <= x2 < WIDTH implies #[trigger] self.viewport@[pre.cell(x2)] == if x2 + 7
                        >= pre.wx && ((x2 + 7 - pre.wx) / 8 < tile || ((x2 + 7 - pre.wx) / 8 == tile && (x2 + 7 - pre.wx) % 8 < i + 1)) {
                        pre.win_pixel(x2)
                    } else {
                        pre.viewport@[pre.cell(x2)]
                    } by {
                        if x2 + 7 - pre.wx == 8 * tile + i {
                        } else {
                            assert(pre.cell(x2) != pre.cell(x as int - 7));
                        }
                    }
                }
                i = i + 1;
            }
            tile = tile + 1;
        }
        if self.wx <= 166 {
            self.wc = self.wc.wrapping_add(1);
        }
    }

    /// Some of the first `n` sprites of `list` spans screen column `x`.
    pub open spec fn covered(list: Seq<Sprite>, n: int, x: int) -> bool
        decreases n,
    {
        if n <= 0 {
            false
        } else {
            (list[n - 1].x <= x + 8 < list[n - 1].x + 8) || Self::covered(list, n - 1, x)
        }
    }

    /// A cell after the sprite pass: unchanged, or an opaque sprite colour
    /// under one of the two object palettes.
    pub open spec fn sprite_cell(&self, now: Pixel, before: Pixel) -> bool {
        now == before || (now.color_idx != 0 && now.color_idx < 4 && (now.palette == self.obp0
            || now.palette == self.obp1))
    }

    #[verifier::rlimit(80)]
    /// Sprites, in list order: each opaque pixel within the screen is drawn,
    /// over background colour 0 only when the sprite has priority set.
    fn draw_sprite_line(&mut self)
        requires
            old(self).inv(),
            old(self).ly < 144,
        ensures
            final(self).inv(),
            *final(self) == (Ppu { viewport: final(self).viewport, ..*old(self) }),
            forall|i: int| 0 <= i < WIDTH * HEIGHT && !(old(self).cell(0) <= i < old(self).cell(
                WIDTH as int,
            )) ==> final(self).viewport@[i] == old(self).viewport@[i],
            forall|x: int| 0 <= x < WIDTH ==> #[trigger] old(self).sprite_cell(final(self).viewport@[old(self).cell(x)], old(self).viewport@[old(self).cell(x)]),
            forall|x: int| 0 <= x < WIDTH && !Self::covered(old(self).oam_sprites@, old(self).oam_sprites.len() as int, x)
                ==> #[trigger] final(self).viewport@[old(self).cell(x)] == old(self).viewport@[old(self).cell(x)],
    {
        let height: u8 = if (self.lcdc / 4) % 2 == 1 { 16 } else { 8 };
        let ghost pre = *self;
        let n = self.oam_sprites.len();
        let mut s: usize = 0;
        while s < n
            invariant
                self.inv(),
                s <= n,
                n == self.oam_sprites.len(),
                *self == (Ppu { viewport: self.viewport, ..pre }),
                pre.ly < 144,
                height == 8 || height == 16,
                forall|i: int| 0 <= i < WIDTH * HEIGHT && !(pre.cell(0) <= i < pre.cell(WIDTH as int))
                    ==> self.viewport@[i] == pre.viewport@[i],
                forall|x: int| 0 <= x < WIDTH ==> #[trigger] pre.sprite_cell(self.viewport@[pre.cell(x)], pre.viewport@[pre.cell(x)]),
                forall|x: int| 0 <= x < WIDTH && !Self::covered(pre.oam_sprites@, s as int, x)
                    ==> #[trigger] self.viewport@[pre.cell(x)] == pre.viewport@[pre.cell(x)],
            decreases n - s,
        {
            let sprite = self.oam_sprites[s];
            let line = self.ly as u16 + 16;
            if sprite.y as u16 <= line && line < sprite.y as u16 + height as u16 {
                let mut row = (line - sprite.y as u16) as u8;
                if sprite.y_flip {
                    row = height - row - 1;
                }
                let palette = if sprite.palette { self.obp1 } else { self.obp0 };
                let tile = if height == 16 { sprite.tile - sprite.tile % 2 } else { sprite.tile };
                let tile_row = self.decode_tile_row(tile, row, true);
                let mut i: u8 = 0;
                while i < 8
                    invariant
                        self.inv(),
                        i <= 8,
                        tile_row.len() == 8,
                        forall|k: int| 0 <= k < 8 ==> #[trigger] tile_row@[k] < 4,
                        *self == (Ppu { viewport: self.viewport, ..pre }),
                        pre.ly < 144,
                        forall|j: int| 0 <= j < WIDTH * HEIGHT && !(pre.cell(0) <= j < pre.cell(WIDTH as int))
                            ==> self.viewport@[j] == pre.viewport@[j],
                        forall|x: int| 0 <= x < WIDTH ==> #[trigger] pre.sprite_cell(self.viewport@[pre.cell(x)], pre.viewport@[pre.cell(x)]),
                        palette == pre.obp0 || palette == pre.obp1,
                        s < n,
                        sprite == pre.oam_sprites@[s as int],
                        forall|x: int| 0 <= x < WIDTH && !Self::covered(pre.oam_sprites@, s + 1, x)
                            ==> #[trigger] self.viewport@[pre.cell(x)] == pre.viewport@[pre.cell(x)],
                    decreases 8 - i,
                {
                    let col = if sprite.x_flip { 7 - i } else { i };
                    let color_idx = tile_row[col as usize];
                    let x = (sprite.x as u16 + i as u16 + 248) % 256;
                    if x < 160 && color_idx != 0 {
                        let under = self.viewport[self.ly as usize * WIDTH + x as usize];
                        if !sprite.priority || under.color_idx == 0 {
                            self.plot(x as usize, Pixel { color_idx, palette });
                            proof {
                                assert(sprite.x <= x + 8 < sprite.x + 8);
                                assert forall|x2: int| 0 <= x2 < WIDTH implies #[trigger] pre.sprite_cell(self.viewport@[pre.cell(x2)], pre.viewport@[pre.cell(x2)]) by {
                                    if x2 != x {
                                        assert(pre.cell(x2) != pre.cell(x as int));
                                    }
                                }
                                assert forall|x2: int| 0 <= x2 < WIDTH && !Self::covered(pre.oam_sprites@, s + 1, x2) implies #[trigger] self.viewport@[pre.cell(x2)] == pre.viewport@[pre.cell(x2)] by {
                                    if x2 != x {
                                        assert(pre.cell(x2) != pre.cell(x as int));
                                    }
                                }
                            }
                        }
                    }
                    i = i + 1;
                }
            }
            s = s + 1;
        }
    }

    /// The grey level shown for cell `i`.
    pub open spec fn gray(&self, i: int) -> u8 {
        if lcd_on(self.lcdc) && !self.first_lcd_frame {
            shade_level(shade(self.viewport@[i].palette, self.viewport@[i].color_idx))
        } else {
            0xff
        }
    }

    /// Bytes `4i` to `4i + 3` of `frame` hold cell `i` as opaque grey.
    pub open spec fn rgba_at(&self, frame: Seq<u8>, i: int) -> bool {
        &&& frame[4 * i] == self.gray(i)
        &&& frame[4 * i + 1] == self.gray(i)
        &&& frame[4 * i + 2] == self.gray(i)
        &&& frame[4 * i + 3] == 0xff
    }

    /// The frame as RGBA bytes, row-major: each cell's grey level, or white
    /// while the LCD is off or in the first frame after it came on.
    pub fn render(&mut self) -> (r: Vec<u8>)
        requires
            old(self).wf(),
        ensures
            final(self).wf(),
            *final(self) == (Ppu { first_lcd_frame: false, ..*old(self) }),
            r.len() == 4 * WIDTH * HEIGHT,
            forall|i: int| 0 <= i < WIDTH * HEIGHT ==> #[trigger] old(self).rgba_at(r@, i),
    {
        let show = self.lcdc >= 128 && !self.first_lcd_frame;
        let mut frame: Vec<u8> = Vec::new();
        let mut i: usize = 0;
        while i < WIDTH * HEIGHT
            invariant
                self.wf(),
                *self == *old(self),
                i <= WIDTH * HEIGHT,
                frame.len() == 4 * i,
                show == (lcd_on(self.lcdc) && !self.first_lcd_frame),
                forall|j: int| 0 <= j < i ==> #[trigger] self.rgba_at(frame@, j),
            decreases WIDTH * HEIGHT - i,
        {
            let g = if show {
                let p = self.viewport[i];
                p.color()
            } else {
                0xff
            };
            assert(g == self.gray(i as int));
            let ghost before = frame@;
            frame.push(g);
            frame.push(g);
            frame.push(g);
            frame.push(0xff);
            assert forall|j: int| 0 <= j < i + 1 implies #[trigger] self.rgba_at(frame@, j) by {
                if j < i {
                    assert(self.rgba_at(before, j));
                    assert(frame@[4 * j] == before[4 * j]);
                    assert(frame@[4 * j + 1] == before[4 * j + 1]);
                    assert(frame@[4 * j + 2] == before[4 * j + 2]);
                    assert(frame@[4 * j + 3] == before[4 * j + 3]);
                }
            }
            i = i + 1;
        }
        self.first_lcd_frame = false;
        frame
    }
}

} // verus!
