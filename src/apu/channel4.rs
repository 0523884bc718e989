//! The noise channel: a 15-bit linear-feedback shift register.
use vstd::prelude::*;
use super::utils::{LengthCounter, VolumeEnvelope};

verus! {

pub struct Channel4 {
    pub clock_divider: u8,
    /// Short mode: feedback also goes to bit 6.
    pub lfsr_width: bool,
    pub clock_shift: u8,
    pub trigger: bool,
    pub lfsr: u16,
    pub period_counter: u32,
    pub frame_sequence: u8,
    pub length: LengthCounter,
    pub volume: VolumeEnvelope,
    pub dac_enabled: bool,
}

/// The shift register after one step: the XOR of bits 0 and 1 shifts in at
/// bit 14, and in short mode also replaces bit 6.
pub open spec fn lfsr_step(lfsr: u16, short: bool) -> u16 {
    let x: u16 = (lfsr & 1) ^ ((lfsr >> 1u16) & 1);
    let shifted: u16 = (lfsr >> 1u16) | (x << 14u16);
    if short { (shifted & !(1u16 << 6u16)) | (x << 6u16) } else { shifted }
}

/// The period in steps: the divisor (zero read as a half) times 8, shifted
/// by the clock shift.
pub open spec fn noise_period(divider: u8, shift: u8) -> int {
    (if divider == 0 { 8int } else { divider * 8 }) * vstd::arithmetic::power2::pow2(shift as nat)
}

impl Channel4 {
    pub open spec fn wf(&self) -> bool {
        &&& self.clock_divider < 8 && self.clock_shift < 16 && self.frame_sequence < 8
        &&& self.length.wf() && self.length.max == 64
        &&& self.length.tick == (self.frame_sequence % 2 == 0)
        &&& self.volume.wf()
        &&& self.trigger ==> self.dac_enabled
    }

    /// What registers 0xFF20-0xFF23 read.
    pub open spec fn spec_read(&self, addr: u16) -> u8 {
        if addr == 0xff21 {
            self.volume.spec_register() as u8
        } else if addr == 0xff22 {
            (self.clock_shift * 16 + (if self.lfsr_width { 8int } else { 0 }) + self.clock_divider) as u8
        } else if addr == 0xff23 {
            (0xbf + if self.length.enable { 0x40int } else { 0 }) as u8
        } else {
            0xff
        }
    }

    /// `self` is `pre` after `val` is written to 0xFF23: the length-enable
    /// bit is set (with its extra clock), and bit 7 with the DAC on triggers
    /// the channel: length reloaded if expired, envelope restarted, shift
    /// register filled with ones.
    pub open spec fn controlled(&self, pre: &Channel4, val: u8) -> bool {
        let (l1, expired) = pre.length.spec_set_enable((val / 64) % 2 == 1);
        let trig = (val / 128) % 2 == 1 && pre.dac_enabled;
        &&& self.length == if trig { l1.spec_trigger() } else { l1 }
        &&& if trig {
                self.trigger && self.lfsr == 0x7fff && self.volume.level == pre.volume.initial_level
            } else {
                self.trigger == (pre.trigger && !expired)
            }
        &&& self.dac_enabled == pre.dac_enabled
        &&& self.volume.spec_register() == pre.volume.spec_register()
    }

    pub fn new() -> (r: Channel4)
        ensures
            r.wf(),
            !r.trigger && !r.dac_enabled && r.clock_divider == 0 && r.clock_shift == 0,
            !r.lfsr_width && !r.length.enable && r.volume.spec_register() == 0,
    {
        Channel4 {
            clock_divider: 0,
            lfsr_width: false,
            clock_shift: 0,
            trigger: false,
            lfsr: 0,
            period_counter: 0,
            frame_sequence: 0,
            length: LengthCounter::new(64),
            volume: VolumeEnvelope::new(),
            dac_enabled: false,
        }
    }

    pub fn read(&self, addr: u16) -> (r: u8)
        requires
            self.wf(),
        ensures
            r == self.spec_read(addr),
    {
        match addr {
            0xff21 => self.volume.read_register(),
            0xff22 => self.clock_shift * 16 + (if self.lfsr_width { 8u8 } else { 0 }) + self.clock_divider,
            0xff23 => 0xbf + if self.length.is_enabled() { 0x40u8 } else { 0 },
            _ => 0xff,
        }
    }

    /// Writes a register; reading it back gives the value with its
    /// unreadable bits set. A trigger seeds the shift register with ones.
    pub fn write(&mut self, addr: u16, val: u8)
        requires
            old(self).wf(),
        ensures
            final(self).wf(),
            0xff20 <= addr <= 0xff23 ==> final(self).spec_read(addr) == if addr == 0xff21
                || addr == 0xff22 {
                val
            } else if addr == 0xff23 {
                (0xbf + (val / 64 % 2) * 64) as u8
            } else {
                0xffu8
            },
            addr == 0xff21 ==> final(self).dac_enabled == (val >= 8),
            addr == 0xff20 ==> final(self).length.timer == 64 - val % 64,
            addr == 0xff23 && (val / 128) % 2 == 1 && old(self).dac_enabled ==> final(self).trigger
                && final(self).lfsr == 0x7fff,
            addr != 0xff21 ==> final(self).dac_enabled == old(self).dac_enabled,
            addr == 0xff23 ==> final(self).controlled(old(self), val),
    {
        match addr {
            0xff20 => self.length.set_timer(val % 64),
            0xff21 => {
                self.volume.write_register(val);
                self.dac_enabled = val >= 8;
                if !self.dac_enabled {
                    self.trigger = false;
                }
            },
            0xff22 => {
                self.clock_divider = val % 8;
                self.lfsr_width = (val / 8) % 2 == 1;
                self.clock_shift = val / 16;
                proof {
                    crate::bits::lemma_split_4_1_3(val);
                }
            },
            0xff23 => {
                if self.length.set_enable((val / 64) % 2 == 1) {
                    self.trigger = false;
                }
                if (val / 128) % 2 == 1 && self.dac_enabled {
                    self.trigger = true;
                    self.lfsr = 0x7fff;
                    self.length.trigger();
                    self.volume.trigger();
                }
            },
            _ => {},
        }
    }

    /// One machine cycle: the counter counts down, and at zero it reloads
    /// and the shift register steps.
    pub open spec fn spec_tick(self) -> Channel4 {
        if !self.trigger {
            self
        } else if self.period_counter > 1 {
            Channel4 { period_counter: (self.period_counter - 1) as u32, ..self }
        } else {
            Channel4 {
                period_counter: noise_period(self.clock_divider, self.clock_shift) as u32,
                lfsr: lfsr_step(self.lfsr, self.lfsr_width),
                ..self
            }
        }
    }

    pub fn enabled(&self) -> (r: bool)
        ensures
            r == self.trigger,
    {
        self.trigger
    }

    /// One machine cycle: the period counter counts down, and at zero it
    /// reloads and the shift register steps.
    pub fn tick(&mut self)
        requires
            old(self).wf(),
        ensures
            final(self).wf(),
            !old(self).trigger ==> *final(self) == *old(self),
            old(self).trigger && old(self).period_counter > 1 ==> *final(self) == (Channel4 {
                period_counter: (old(self).period_counter - 1) as u32,
                ..*old(self)
            }),
            old(self).trigger && old(self).period_counter <= 1 ==> *final(self) == (Channel4 {
                period_counter: noise_period(old(self).clock_divider, old(self).clock_shift) as u32,
                lfsr: lfsr_step(old(self).lfsr, old(self).lfsr_width),
                ..*old(self)
            }),
            *final(self) == old(self).spec_tick(),
    {
        if self.trigger {
            self.period_counter = if self.period_counter > 0 { self.period_counter - 1 } else { 0 };
            if self.period_counter == 0 {
                let divider: u32 = if self.clock_divider == 0 { 8 } else { self.clock_divider as u32 * 8 };
                proof {
                    vstd::arithmetic::power2::lemma_pow2_pos(self.clock_shift as nat);
                    vstd::arithmetic::power2::lemma2_to64();
                    vstd::arithmetic::power2::lemma_pow2_strictly_increases(self.clock_shift as nat, 16);
                    assert(divider * vstd::arithmetic::power2::pow2(self.clock_shift as nat) <= 56 * 65536)
                        by (nonlinear_arith)
                        requires
                            divider <= 56,
                            vstd::arithmetic::power2::pow2(self.clock_shift as nat) < 65536,
                    ;
                }
                self.period_counter = divider * shift_factor(self.clock_shift);
                let x: u16 = (self.lfsr & 1) ^ ((self.lfsr >> 1u16) & 1);
                let mut next: u16 = (self.lfsr >> 1u16) | (x << 14u16);
                if self.lfsr_width {
                    next = (next & !(1u16 << 6u16)) | (x << 6u16);
                }
                self.lfsr = next;
            }
        }
    }

    /// One frame-sequencer step: length on even steps, envelope on step 7.
    pub fn tick_frame_sequencer(&mut self)
        requires
            old(self).wf(),
        ensures
            final(self).wf(),
            final(self).frame_sequence == (old(self).frame_sequence + 1) % 8,
            final(self).trigger ==> old(self).trigger,
            final(self).dac_enabled == old(self).dac_enabled,
            final(self).clock_divider == old(self).clock_divider,
            final(self).clock_shift == old(self).clock_shift,
            final(self).lfsr_width == old(self).lfsr_width,
            final(self).length.enable == old(self).length.enable,
            final(self).volume.spec_register() == old(self).volume.spec_register(),
            final(self).length.tick == !old(self).length.tick,
            final(self).frame_sequence != 7 ==> final(self).volume == old(self).volume,
            final(self).frame_sequence % 2 == 0 ==> final(self).length == (LengthCounter {
                tick: true,
                ..old(self).length
            }).spec_clock().0 && ((LengthCounter { tick: true, ..old(self).length }).spec_clock().1
                ==> !final(self).trigger),
            final(self).frame_sequence % 2 == 1 ==> final(self).length == (LengthCounter {
                tick: false,
                ..old(self).length
            }),
            final(self).frame_sequence == 7 ==> final(self).volume == old(self).volume.spec_tick(),
    {
        self.frame_sequence = (self.frame_sequence + 1) % 8;
        if self.length.tick() {
            self.trigger = false;
        }
        if self.frame_sequence == 7 {
            self.volume.tick();
        }
    }

    /// The digital output: the envelope level while bit 0 of the shift
    /// register is clear and the DAC is on.
    pub fn output(&self) -> (r: u8)
        requires
            self.wf(),
        ensures
            r == if self.dac_enabled && self.lfsr % 2 == 0 { self.volume.level } else { 0 },
    {
        if self.dac_enabled && self.lfsr % 2 == 0 {
            self.volume.get_level()
        } else {
            0
        }
    }
}

/// Two to the power `shift`.
fn shift_factor(shift: u8) -> (r: u32)
    requires
        shift < 16,
    ensures
        r == vstd::arithmetic::power2::pow2(shift as nat),
{
    let mut r: u32 = 1;
    let mut i: u8 = 0;
    proof {
        vstd::arithmetic::power2::lemma2_to64();
    }
    while i < shift
        invariant
            i <= shift < 16,
            r == vstd::arithmetic::power2::pow2(i as nat),
        decreases shift - i,
    {
        proof {
            vstd::arithmetic::power2::lemma_pow2_unfold((i + 1) as nat);
            vstd::arithmetic::power2::lemma2_to64();
            vstd::arithmetic::power2::lemma_pow2_strictly_increases((i + 1) as nat, 16);
        }
        r = r * 2;
        i = i + 1;
    }
    r
}

} // verus!
