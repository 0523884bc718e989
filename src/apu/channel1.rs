//! The first pulse channel, with frequency sweep.
use vstd::prelude::*;
use super::utils::{LengthCounter, SweepEnvelope, VolumeEnvelope};
use super::{duty_bit, duty_pattern};

verus! {

pub struct Channel1 {
    pub duty: u8,
    pub period: u16,
    /// The channel is on (triggered and not silenced since).
    pub trigger: bool,
    pub duty_position: u8,
    pub period_counter: u16,
    pub frame_sequence: u8,
    pub length: LengthCounter,
    pub volume: VolumeEnvelope,
    pub sweep: SweepEnvelope,
    pub dac_enabled: bool,
}

impl Channel1 {
    pub open spec fn wf(&self) -> bool {
        &&& self.duty < 4 && self.period <= 2047 && self.duty_position < 8
        &&& self.period_counter < 2048 && self.frame_sequence < 8
        &&& self.length.wf() && self.length.max == 64
        &&& self.length.tick == (self.frame_sequence % 2 == 0)
        &&& self.volume.wf() && self.sweep.wf()
        &&& self.trigger ==> self.dac_enabled
    }

    /// What registers 0xFF10-0xFF14 read: the unreadable bits read as 1.
    pub open spec fn spec_read(&self, addr: u16) -> u8 {
        if addr == 0xff10 {
            (0x80 + self.sweep.pace * 16 + (if self.sweep.direction { 8int } else { 0 })
                + self.sweep.step) as u8
        } else if addr == 0xff11 {
            (self.duty * 64 + 0x3f) as u8
        } else if addr == 0xff12 {
            self.volume.spec_register() as u8
        } else if addr == 0xff14 {
            (0xbf + if self.length.enable { 0x40int } else { 0 }) as u8
        } else {
            0xff
        }
    }

    /// `self` is `pre` after `val` is written to the control register: the
    /// length-enable bit is set (with its extra clock), and bit 7 with the
    /// DAC on triggers the channel: length reloaded if expired, envelope
    /// restarted, sweep shadow loaded and checked.
    pub open spec fn controlled(&self, pre: &Channel1, val: u8) -> bool {
        let (l1, expired) = pre.length.spec_set_enable((val / 64) % 2 == 1);
        let trig = (val / 128) % 2 == 1 && pre.dac_enabled;
        &&& self.period == (val % 8) * 256 + pre.period % 256
        &&& self.length == if trig { l1.spec_trigger() } else { l1 }
        &&& if trig {
                self.volume.level == pre.volume.initial_level
                && self.period_counter == self.period
                && self.sweep.shadow_period == self.period
                && self.trigger == !(pre.sweep.step != 0 && self.sweep.spec_next() > 2047)
            } else {
                self.trigger == (pre.trigger && !expired)
            }
        &&& self.dac_enabled == pre.dac_enabled && self.duty == pre.duty
        &&& self.volume.spec_register() == pre.volume.spec_register()
        &&& self.sweep.step == pre.sweep.step && self.sweep.pace == pre.sweep.pace
        &&& self.sweep.direction == pre.sweep.direction
    }

    /// A channel that was never written.
    pub fn new() -> (r: Channel1)
        ensures
            r.wf(),
            !r.trigger && !r.dac_enabled && r.duty == 0 && r.period == 0,
            !r.length.enable && r.volume.spec_register() == 0,
            r.sweep.pace == 0 && !r.sweep.direction && r.sweep.step == 0,
    {
        Channel1 {
            duty: 0,
            period: 0,
            trigger: false,
            duty_position: 0,
            period_counter: 0,
            frame_sequence: 0,
            length: LengthCounter::new(64),
            volume: VolumeEnvelope::new(),
            sweep: SweepEnvelope::new(),
            dac_enabled: false,
        }
    }

    pub fn read(&self, addr: u16) -> (r: u8)
        requires
            self.wf(),
        ensures
            r == self.spec_read(addr),
    {
        match addr {
            0xff10 => 0x80 + self.sweep.pace * 16 + (if self.sweep.get_direction() { 8u8 } else { 0 })
                + self.sweep.step,
            0xff11 => self.duty * 64 + 0x3f,
            0xff12 => self.volume.read_register(),
            0xff14 => 0xbf + if self.length.is_enabled() { 0x40u8 } else { 0 },
            _ => 0xff,
        }
    }

    /// Writes a register. Reading it back gives the value with its
    /// unreadable bits set. A DAC switched off silences the channel; bit 7 of
    /// 0xFF14 triggers it when the DAC is on.
    pub fn write(&mut self, addr: u16, val: u8)
        requires
            old(self).wf(),
        ensures
            final(self).wf(),
            0xff10 <= addr <= 0xff14 ==> final(self).spec_read(addr) == if addr == 0xff10 {
                (0x80 + val % 128) as u8
            } else if addr == 0xff11 {
                ((val / 64) * 64 + 0x3f) as u8
            } else if addr == 0xff12 {
                val
            } else if addr == 0xff13 {
                0xffu8
            } else {
                (0xbf + (val / 64 % 2) * 64) as u8
            },
            addr == 0xff12 ==> final(self).dac_enabled == (val >= 8),
            addr == 0xff11 ==> final(self).length.timer == 64 - val % 64,
            addr == 0xff14 && (val / 128) % 2 == 0 ==> (final(self).trigger ==> old(self).trigger),
            addr != 0xff12 ==> final(self).dac_enabled == old(self).dac_enabled,
            addr == 0xff14 ==> final(self).controlled(old(self), val),
            addr == 0xff13 ==> final(self).period == (old(self).period / 256) * 256 + val,
            addr == 0xff10 && old(self).sweep.negate_mode && (val / 8) % 2 == 0 ==> !final(self).trigger,
    {
        match addr {
            0xff10 => self.write_sweep(val),
            0xff11 => {
                self.length.set_timer(val % 64);
                self.duty = val / 64;
            },
            0xff12 => {
                self.volume.write_register(val);
                self.dac_enabled = val >= 8;
                if !self.dac_enabled {
                    self.trigger = false;
                }
            },
            0xff13 => {
                self.period = (self.period / 256) * 256 + val as u16;
            },
            0xff14 => self.write_control(val),
            _ => {},
        }
    }

    /// The sweep register; turning the direction to addition after a
    /// subtraction silences the channel.
    fn write_sweep(&mut self, val: u8)
        requires
            old(self).wf(),
        ensures
            final(self).wf(),
            final(self).sweep.step == val % 8,
            final(self).sweep.direction == ((val / 8) % 2 == 1),
            final(self).sweep.pace == (val / 16) % 8,
            final(self).spec_read(0xff10) == (0x80 + val % 128) as u8,
            final(self).trigger ==> old(self).trigger,
            old(self).sweep.negate_mode && (val / 8) % 2 == 0 ==> !final(self).trigger,
            final(self).dac_enabled == old(self).dac_enabled && final(self).duty == old(self).duty,
            final(self).length == old(self).length && final(self).volume == old(self).volume,
    {
        self.sweep.step = val % 8;
        if self.sweep.set_direction((val / 8) % 2 == 1) {
            self.trigger = false;
        }
        self.sweep.pace = (val / 16) % 8;
        proof {
            crate::bits::lemma_split_low7(val);
        }
    }

    /// The control register: period high bits, length enable, trigger.
    fn write_control(&mut self, val: u8)
        requires
            old(self).wf(),
        ensures
            final(self).wf(),
            final(self).controlled(old(self), val),
    {
        self.period = (val % 8) as u16 * 256 + self.period % 256;
        if self.length.set_enable((val / 64) % 2 == 1) {
            self.trigger = false;
        }
        if (val / 128) % 2 == 1 && self.dac_enabled {
            self.trigger = true;
            self.period_counter = self.period;
            self.length.trigger();
            self.volume.trigger();
            if self.sweep.trigger(self.period) {
                self.trigger = false;
            }
        }
    }

    /// One period-counter step: at 2048 the position advances and the
    /// counter reloads from the period.
    pub open spec fn spec_tick(self) -> Channel1 {
        if !self.trigger {
            self
        } else if self.period_counter + 1 == 2048 {
            Channel1 { duty_position: ((self.duty_position + 1) % 8) as u8, period_counter: self.period, ..self }
        } else {
            Channel1 { period_counter: (self.period_counter + 1) as u16, ..self }
        }
    }

    pub fn enabled(&self) -> (r: bool)
        ensures
            r == self.trigger,
    {
        self.trigger
    }

    /// One machine cycle of the period counter; at 2048 the duty position
    /// advances and the counter reloads from the period.
    pub fn tick(&mut self)
        requires
            old(self).wf(),
        ensures
            final(self).wf(),
            !old(self).trigger ==> *final(self) == *old(self),
            old(self).trigger && old(self).period_counter + 1 == 2048 ==> *final(self) == (Channel1 {
                duty_position: ((old(self).duty_position + 1) % 8) as u8,
                period_counter: old(self).period,
                ..*old(self)
            }),
            old(self).trigger && old(self).period_counter + 1 < 2048 ==> *final(self) == (Channel1 {
                period_counter: (old(self).period_counter + 1) as u16,
                ..*old(self)
            }),
            *final(self) == old(self).spec_tick(),
    {
        if self.trigger {
            self.period_counter = self.period_counter + 1;
            if self.period_counter == 2048 {
                self.duty_position = (self.duty_position + 1) % 8;
                self.period_counter = self.period;
            }
        }
    }

    /// One frame-sequencer step: length on even steps, sweep on steps 2 and
    /// 6, envelope on step 7.
    pub fn tick_frame_sequencer(&mut self)
        requires
            old(self).wf(),
        ensures
            final(self).wf(),
            final(self).frame_sequence == (old(self).frame_sequence + 1) % 8,
            final(self).trigger ==> old(self).trigger,
            final(self).duty == old(self).duty && final(self).dac_enabled == old(self).dac_enabled,
            final(self).length.enable == old(self).length.enable,
            final(self).volume.spec_register() == old(self).volume.spec_register(),
            final(self).sweep.pace == old(self).sweep.pace,
            final(self).sweep.step == old(self).sweep.step,
            final(self).sweep.direction == old(self).sweep.direction,
            final(self).length.tick == !old(self).length.tick,
            final(self).frame_sequence != 7 ==> final(self).volume == old(self).volume,
            final(self).frame_sequence != 2 && final(self).frame_sequence != 6 ==> final(self).sweep
                == old(self).sweep && final(self).period == old(self).period,
            final(self).frame_sequence % 2 == 0 ==> final(self).length == (LengthCounter {
                tick: true,
                ..old(self).length
            }).spec_clock().0 && ((LengthCounter { tick: true, ..old(self).length }).spec_clock().1
                ==> !final(self).trigger),
            final(self).frame_sequence % 2 == 1 ==> final(self).length == (LengthCounter {
                tick: false,
                ..old(self).length
            }),
            final(self).frame_sequence == 7 ==> final(self).volume == old(self).volume.spec_tick(),
            (final(self).frame_sequence == 2 || final(self).frame_sequence == 6) ==> {
                let (sw, out) = old(self).sweep.spec_tick();
                &&& final(self).sweep == sw
                &&& (out matches Some((Some(p), _)) ==> final(self).period == p)
                &&& (out matches Some((_, true)) ==> !final(self).trigger)
            },
    {
        self.frame_sequence = (self.frame_sequence + 1) % 8;
        if self.length.tick() {
            self.trigger = false;
        }
        if self.frame_sequence == 7 {
            self.volume.tick();
        }
        if self.frame_sequence == 2 || self.frame_sequence == 6 {
            if let Some((next_period, disable)) = self.sweep.tick() {
                if let Some(period) = next_period {
                    self.period = period;
                }
                if disable {
                    self.trigger = false;
                }
            }
        }
    }

    /// The digital output, 0 to 15: the envelope level while the duty
    /// pattern is high and the DAC is on.
    pub fn output(&self) -> (r: u8)
        requires
            self.wf(),
        ensures
            r == if self.dac_enabled && duty_bit(self.duty, self.duty_position) {
                self.volume.level
            } else {
                0
            },
    {
        let high = (duty_pattern(self.duty) >> (7 - self.duty_position)) & 1 == 1;
        if self.dac_enabled && high {
            self.volume.get_level()
        } else {
            0
        }
    }
}

} // verus!
