//! The wave channel: 32 four-bit samples from wave RAM.
use vstd::prelude::*;
use super::utils::LengthCounter;

verus! {

pub struct Channel3 {
    pub dac_enabled: bool,
    /// Output level code: 0 mute, 1 full, 2 half, 3 quarter.
    pub volume: u8,
    pub period: u16,
    pub trigger: bool,
    pub sample_index: u8,
    pub period_counter: u16,
    pub length: LengthCounter,
}

/// Sample `i` (0-31) of wave RAM: the high nibble of each byte comes first.
pub open spec fn wave_sample(aram: Seq<u8>, i: int) -> int {
    if i % 2 == 0 { aram[i / 2] as int / 16 } else { aram[i / 2] as int % 16 }
}

/// A sample scaled by the output level: shifted right by 4, 0, 1 or 2.
pub open spec fn scaled(sample: int, volume: u8) -> int {
    if volume == 0 { 0 } else if volume == 1 { sample } else if volume == 2 { sample / 2 } else { sample / 4 }
}

impl Channel3 {
    pub open spec fn wf(&self) -> bool {
        &&& self.volume < 4 && self.period <= 2047 && self.sample_index < 32
        &&& self.period_counter < 2048
        &&& self.length.wf() && self.length.max == 256
        &&& self.trigger ==> self.dac_enabled
    }

    /// What registers 0xFF1A-0xFF1E read.
    pub open spec fn spec_read(&self, addr: u16) -> u8 {
        if addr == 0xff1a {
            (0x7f + if self.dac_enabled { 0x80int } else { 0 }) as u8
        } else if addr == 0xff1c {
            (self.volume * 32 + 0x9f) as u8
        } else if addr == 0xff1e {
            (0xbf + if self.length.enable { 0x40int } else { 0 }) as u8
        } else {
            0xff
        }
    }

    /// `self` is `pre` after `val` is written to 0xFF1E: the period's high
    /// bits and the length-enable bit (with its extra clock) are set; bit 7
    /// reloads an expired length (256, or 255 in the first half of a length
    /// period with length enabled) and turns the channel on when the DAC is.
    pub open spec fn controlled(&self, pre: &Channel3, val: u8) -> bool {
        let (l1, expired) = pre.length.spec_set_enable((val / 64) % 2 == 1);
        let trig = (val / 128) % 2 == 1;
        &&& self.period == (val % 8) * 256 + pre.period % 256
        &&& self.length == if trig { l1.spec_trigger() } else { l1 }
        &&& self.trigger == ((trig && pre.dac_enabled) || (pre.trigger && !expired))
        &&& self.dac_enabled == pre.dac_enabled && self.volume == pre.volume
    }

    pub fn new() -> (r: Channel3)
        ensures
            r.wf(),
            !r.trigger && !r.dac_enabled && r.volume == 0 && r.period == 0 && !r.length.enable,
    {
        Channel3 {
            dac_enabled: false,
            volume: 0,
            period: 0,
            trigger: false,
            sample_index: 0,
            period_counter: 0,
            length: LengthCounter::new(256),
        }
    }

    pub fn read(&self, addr: u16) -> (r: u8)
        requires
            self.wf(),
        ensures
            r == self.spec_read(addr),
    {
        match addr {
            0xff1a => 0x7f + if self.dac_enabled { 0x80u8 } else { 0 },
            0xff1c => self.volume * 32 + 0x9f,
            0xff1e => 0xbf + if self.length.is_enabled() { 0x40u8 } else { 0 },
            _ => 0xff,
        }
    }

    /// Writes a register; reading it back gives the value with its
    /// unreadable bits set. Bit 7 of 0xFF1A is the DAC.
    pub fn write(&mut self, addr: u16, val: u8)
        requires
            old(self).wf(),
        ensures
            final(self).wf(),
            0xff1a <= addr <= 0xff1e ==> final(self).spec_read(addr) == if addr == 0xff1a {
                (0x7f + (val / 128) * 128) as u8
            } else if addr == 0xff1c {
                (((val / 32) % 4) * 32 + 0x9f) as u8
            } else if addr == 0xff1e {
                (0xbf + (val / 64 % 2) * 64) as u8
            } else {
                0xffu8
            },
            addr == 0xff1a ==> final(self).dac_enabled == (val >= 128),
            addr == 0xff1e && (val / 128) % 2 == 1 && old(self).dac_enabled && !(old(self).length.tick
                && (val / 64) % 2 == 1 && !old(self).length.enable) ==> final(self).trigger,
            addr == 0xff1b ==> final(self).length.timer == 256 - val,
            addr != 0xff1a ==> final(self).dac_enabled == old(self).dac_enabled,
            addr == 0xff1e ==> final(self).controlled(old(self), val),
            addr == 0xff1d ==> final(self).period == (old(self).period / 256) * 256 + val,
    {
        match addr {
            0xff1a => {
                self.dac_enabled = val >= 128;
                if !self.dac_enabled {
                    self.trigger = false;
                }
            },
            0xff1b => self.length.set_timer(val),
            0xff1c => self.volume = (val / 32) % 4,
            0xff1d => {
                self.period = (self.period / 256) * 256 + val as u16;
            },
            0xff1e => {
                self.period = (val % 8) as u16 * 256 + self.period % 256;
                if self.length.set_enable((val / 64) % 2 == 1) {
                    self.trigger = false;
                }
                if (val / 128) % 2 == 1 {
                    if self.dac_enabled {
                        self.trigger = true;
                    }
                    self.length.trigger();
                }
            },
            _ => {},
        }
    }

    /// One period-counter step: at 2048 the position advances and the
    /// counter reloads from the period.
    pub open spec fn spec_tick(self) -> Channel3 {
        if !self.trigger {
            self
        } else if self.period_counter + 1 == 2048 {
            Channel3 { sample_index: ((self.sample_index + 1) % 32) as u8, period_counter: self.period, ..self }
        } else {
            Channel3 { period_counter: (self.period_counter + 1) as u16, ..self }
        }
    }

    pub fn enabled(&self) -> (r: bool)
        ensures
            r == self.trigger,
    {
        self.trigger
    }

    /// One step of the period counter; at 2048 the next sample is selected.
    pub fn tick(&mut self)
        requires
            old(self).wf(),
        ensures
            final(self).wf(),
            !old(self).trigger ==> *final(self) == *old(self),
            old(self).trigger && old(self).period_counter + 1 == 2048 ==> *final(self) == (Channel3 {
                sample_index: ((old(self).sample_index + 1) % 32) as u8,
                period_counter: old(self).period,
                ..*old(self)
            }),
            old(self).trigger && old(self).period_counter + 1 < 2048 ==> *final(self) == (Channel3 {
                period_counter: (old(self).period_counter + 1) as u16,
                ..*old(self)
            }),
            *final(self) == old(self).spec_tick(),
    {
        if self.trigger {
            self.period_counter = self.period_counter + 1;
            if self.period_counter == 2048 {
                self.sample_index = (self.sample_index + 1) % 32;
                self.period_counter = self.period;
            }
        }
    }

    /// One frame-sequencer step: only the length counter.
    pub fn tick_frame_sequencer(&mut self)
        requires
            old(self).wf(),
        ensures
            final(self).wf(),
            final(self).trigger ==> old(self).trigger,
            final(self).dac_enabled == old(self).dac_enabled && final(self).volume == old(self).volume,
            final(self).length.enable == old(self).length.enable,
    {
        if self.length.tick() {
            self.trigger = false;
        }
    }

    /// The digital output: the current sample of wave RAM, scaled by the
    /// output level, while the DAC is on.
    pub fn output(&self, aram: &Vec<u8>) -> (r: u8)
        requires
            self.wf(),
            aram.len() == 16,
        ensures
            r == if self.dac_enabled { scaled(wave_sample(aram@, self.sample_index as int), self.volume) } else { 0 },
            r < 16,
    {
        if !self.dac_enabled {
            return 0;
        }
        let byte = aram[(self.sample_index / 2) as usize];
        let sample = if self.sample_index % 2 == 0 { byte / 16 } else { byte % 16 };
        match self.volume {
            0 => 0,
            1 => sample,
            2 => sample / 2,
            _ => sample / 4,
        }
    }
}

} // verus!
