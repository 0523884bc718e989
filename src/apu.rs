//! The audio unit: four channels, the frame sequencer, and the registers at
//! 0xFF10-0xFF3F.
use vstd::prelude::*;

pub mod channel1;
pub mod channel2;
pub mod channel3;
pub mod channel4;
pub mod sampler;
pub mod utils;

use channel1::Channel1;
use channel2::Channel2;
use channel3::Channel3;
use channel4::Channel4;
use sampler::Sampler;

verus! {

/// The eight-step waveform of a duty setting: 12.5%, 25%, 50%, 75%.
pub open spec fn spec_duty_pattern(duty: u8) -> u8 {
    if duty == 0 { 0b00000001 }
    else if duty == 1 { 0b00000011 }
    else if duty == 2 { 0b00001111 }
    else { 0b11111100 }
}

/// Whether a duty waveform is high at a position (0-7, bit 7 first).
pub open spec fn duty_bit(duty: u8, position: u8) -> bool {
    (spec_duty_pattern(duty) >> ((7 - position) as u8)) & 1 == 1
}

pub fn duty_pattern(duty: u8) -> (r: u8)
    ensures
        r == spec_duty_pattern(duty),
{
    match duty {
        0 => 0b00000001,
        1 => 0b00000011,
        2 => 0b00001111,
        _ => 0b11111100,
    }
}

/// Which channels reach the left and the right output.
#[derive(Copy, Clone)]
pub struct Panning {
    /// (left, right) for each channel.
    pub channel1: (bool, bool),
    pub channel2: (bool, bool),
    pub channel3: (bool, bool),
    pub channel4: (bool, bool),
}

/// Bit `k` of `v`, read arithmetically.
pub open spec fn nth_bit(v: u8, k: int) -> bool {
    (v as int / vstd::arithmetic::power2::pow2(k as nat) as int) % 2 == 1
}

pub open spec fn b2i(b: bool, weight: int) -> int {
    if b { weight } else { 0 }
}

impl Panning {
    /// The register byte: left enables in bits 7-4, right enables in bits
    /// 3-0, channel 4 highest.
    pub open spec fn spec_byte(&self) -> int {
        b2i(self.channel4.0, 128) + b2i(self.channel3.0, 64) + b2i(self.channel2.0, 32) + b2i(
            self.channel1.0,
            16,
        ) + b2i(self.channel4.1, 8) + b2i(self.channel3.1, 4) + b2i(self.channel2.1, 2) + b2i(
            self.channel1.1,
            1,
        )
    }

    /// Decodes the register byte; writing it back gives the same byte.
    pub fn new(val: u8) -> (r: Panning)
        ensures
            r.spec_byte() == val,
    {
        proof {
            crate::bits::lemma_byte_bits(val);
        }
        let r = Panning {
            channel1: ((val / 16) % 2 == 1, val % 2 == 1),
            channel2: ((val / 32) % 2 == 1, (val / 2) % 2 == 1),
            channel3: ((val / 64) % 2 == 1, (val / 4) % 2 == 1),
            channel4: ((val / 128) % 2 == 1, (val / 8) % 2 == 1),
        };
        r
    }

    pub fn as_u8(&self) -> (r: u8)
        ensures
            r == self.spec_byte(),
    {
        (if self.channel4.0 { 128u8 } else { 0 }) + (if self.channel3.0 { 64u8 } else { 0 }) + (
        if self.channel2.0 { 32u8 } else { 0 }) + (if self.channel1.0 { 16u8 } else { 0 }) + (
        if self.channel4.1 { 8u8 } else { 0 }) + (if self.channel3.1 { 4u8 } else { 0 }) + (
        if self.channel2.1 { 2u8 } else { 0 }) + (if self.channel1.1 { 1u8 } else { 0 })
    }
}

pub struct Apu {
    pub channel1: Channel1,
    pub channel2: Channel2,
    pub channel3: Channel3,
    pub channel4: Channel4,
    pub panning: Panning,
    /// The 16 bytes of wave RAM.
    pub aram: Vec<u8>,
    pub vin_left: bool,
    pub left_volume: u8,
    pub vin_right: bool,
    pub right_volume: u8,
    pub master_enable: bool,
    pub sampler: Sampler,
    /// Cut-down output samples not yet taken by the host, oldest first.
    pub samples: Vec<(u32, u32)>,
    /// Set by the host when the consumer is due for more audio.
    pub interval_elapsed: bool,
}

/// The sum of the outputs routed to one side.
fn pan_sum(o1: u8, o2: u8, o3: u8, o4: u8, on1: bool, on2: bool, on3: bool, on4: bool) -> (r: u32)
    requires
        o1 < 16 && o2 < 16 && o3 < 16 && o4 < 16,
    ensures
        r == b2i(on1, o1 as int) + b2i(on2, o2 as int) + b2i(on3, o3 as int) + b2i(on4, o4 as int),
        r <= 60,
{
    (if on1 { o1 as u32 } else { 0 }) + (if on2 { o2 as u32 } else { 0 }) + (if on3 { o3 as u32 } else { 0 }) + (
    if on4 { o4 as u32 } else { 0 })
}

/// A side's sum scaled by its master volume plus one.
fn scale(sum: u32, volume: u8) -> (r: u32)
    requires
        sum <= 60,
        volume < 8,
    ensures
        r == sum * (volume + 1),
        r <= 480,
{
    proof {
        assert(sum * (volume + 1) <= 480) by (nonlinear_arith)
            requires
                sum <= 60,
                volume < 8,
        ;
    }
    sum * (volume as u32 + 1)
}

/// What a register of 0xFF10-0xFF25 reads before any write, and after the
/// unit is switched off.
pub open spec fn unwritten_read(addr: u16) -> u8 {
    if addr == 0xff10 { 0x80 }
    else if addr == 0xff11 || addr == 0xff16 { 0x3f }
    else if addr == 0xff12 || addr == 0xff17 || addr == 0xff21 || addr == 0xff22 || addr == 0xff24
        || addr == 0xff25 { 0x00 }
    else if addr == 0xff14 || addr == 0xff19 || addr == 0xff1e || addr == 0xff23 { 0xbf }
    else if addr == 0xff1a { 0x7f }
    else if addr == 0xff1c { 0x9f }
    else { 0xff }
}

/// What a register of 0xFF10-0xFF25 reads after `val` is written to it
/// while the unit is on: the unreadable bits read as 1.
pub open spec fn written_read(addr: u16, val: u8) -> u8 {
    if addr == 0xff10 {
        (0x80 + val % 128) as u8
    } else if addr == 0xff11 || addr == 0xff16 {
        ((val / 64) * 64 + 0x3f) as u8
    } else if addr == 0xff12 || addr == 0xff17 || addr == 0xff21 || addr == 0xff22 || addr == 0xff24
        || addr == 0xff25 {
        val
    } else if addr == 0xff14 || addr == 0xff19 || addr == 0xff1e || addr == 0xff23 {
        (0xbf + (val / 64 % 2) * 64) as u8
    } else if addr == 0xff1a {
        (0x7f + (val / 128) * 128) as u8
    } else if addr == 0xff1c {
        (((val / 32) % 4) * 32 + 0x9f) as u8
    } else {
        0xff
    }
}

impl Apu {
    pub open spec fn wf(&self) -> bool {
        &&& self.channel1.wf() && self.channel2.wf() && self.channel3.wf() && self.channel4.wf()
        &&& self.aram.len() == 16
        &&& self.left_volume < 8 && self.right_volume < 8
        &&& self.sampler.wf()
    }

    /// The digital outputs of the four channels.
    pub open spec fn spec_outputs(&self) -> (int, int, int, int) {
        (
            if self.channel1.dac_enabled && duty_bit(self.channel1.duty, self.channel1.duty_position) {
                self.channel1.volume.level as int
            } else {
                0
            },
            if self.channel2.dac_enabled && duty_bit(self.channel2.duty, self.channel2.duty_position) {
                self.channel2.volume.level as int
            } else {
                0
            },
            if self.channel3.dac_enabled {
                channel3::scaled(channel3::wave_sample(self.aram@, self.channel3.sample_index as int), self.channel3.volume)
            } else {
                0
            },
            if self.channel4.dac_enabled && self.channel4.lfsr % 2 == 0 {
                self.channel4.volume.level as int
            } else {
                0
            },
        )
    }

    /// The mixed stereo sample: the outputs panned to each side, summed, and
    /// scaled by that side's master volume plus one.
    pub open spec fn spec_mix(&self) -> (int, int) {
        let o = self.spec_outputs();
        let p = self.panning;
        (
            (b2i(p.channel1.0, o.0) + b2i(p.channel2.0, o.1) + b2i(p.channel3.0, o.2) + b2i(p.channel4.0, o.3))
                * (self.left_volume + 1),
            (b2i(p.channel1.1, o.0) + b2i(p.channel2.1, o.1) + b2i(p.channel3.1, o.2) + b2i(p.channel4.1, o.3))
                * (self.right_volume + 1),
        )
    }

    /// The byte that `addr` (0xFF10-0xFF3F) reads.
    pub open spec fn spec_read(&self, addr: u16) -> u8 {
        if 0xff10 <= addr <= 0xff14 {
            self.channel1.spec_read(addr)
        } else if 0xff16 <= addr <= 0xff19 {
            self.channel2.spec_read(addr)
        } else if 0xff1a <= addr <= 0xff1e {
            self.channel3.spec_read(addr)
        } else if 0xff20 <= addr <= 0xff23 {
            self.channel4.spec_read(addr)
        } else if addr == 0xff24 {
            (b2i(self.vin_left, 128) + self.left_volume * 16 + b2i(self.vin_right, 8)
                + self.right_volume) as u8
        } else if addr == 0xff25 {
            self.panning.spec_byte() as u8
        } else if addr == 0xff26 {
            (b2i(self.master_enable, 128) + 0x70 + b2i(self.channel4.trigger, 8) + b2i(
                self.channel3.trigger,
                4,
            ) + b2i(self.channel2.trigger, 2) + b2i(self.channel1.trigger, 1)) as u8
        } else if 0xff30 <= addr <= 0xff3f {
            self.aram@[addr - 0xff30]
        } else {
            0xff
        }
    }

    /// The unit is off and every register of 0xFF10-0xFF25 reads as never
    /// written.
    pub open spec fn silent(&self) -> bool {
        &&& !self.master_enable
        &&& forall|a: u16| 0xff10 <= a <= 0xff25 ==> #[trigger] self.spec_read(a) == unwritten_read(a)
    }

    /// A write to `addr` is taken: the unit is on, or the address is the
    /// master control or wave RAM.
    pub open spec fn accepts(&self, addr: u16) -> bool {
        self.master_enable || addr == 0xff26 || (0xff30 <= addr <= 0xff3f)
    }

    /// The unit as powered on: everything off and zero.
    pub fn new() -> (r: Apu)
        ensures
            r.wf(),
            r.silent(),
            r.aram@ == Seq::new(16, |i: int| 0u8),
    {
        let r = Apu {
            channel1: Channel1::new(),
            channel2: Channel2::new(),
            channel3: Channel3::new(),
            channel4: Channel4::new(),
            panning: Panning::new(0),
            aram: crate::bus::cartridge::filled(16, 0),
            vin_left: false,
            left_volume: 0,
            vin_right: false,
            right_volume: 0,
            master_enable: false,
            sampler: Sampler::new(),
            samples: Vec::new(),
            interval_elapsed: false,
        };
        assert(r.silent());
        r
    }

    pub fn read(&self, addr: u16) -> (r: u8)
        requires
            self.wf(),
        ensures
            r == self.spec_read(addr),
    {
        if 0xff10 <= addr && addr <= 0xff14 {
            self.channel1.read(addr)
        } else if 0xff16 <= addr && addr <= 0xff19 {
            self.channel2.read(addr)
        } else if 0xff1a <= addr && addr <= 0xff1e {
            self.channel3.read(addr)
        } else if 0xff20 <= addr && addr <= 0xff23 {
            self.channel4.read(addr)
        } else if addr == 0xff24 {
            (if self.vin_left { 128u8 } else { 0 }) + self.left_volume * 16 + (if self.vin_right {
                8u8
            } else {
                0
            }) + self.right_volume
        } else if addr == 0xff25 {
            self.panning.as_u8()
        } else if addr == 0xff26 {
            (if self.master_enable { 128u8 } else { 0 }) + 0x70 + (if self.channel4.enabled() {
                8u8
            } else {
                0
            }) + (if self.channel3.enabled() { 4u8 } else { 0 }) + (if self.channel2.enabled() {
                2u8
            } else {
                0
            }) + (if self.channel1.enabled() { 1u8 } else { 0 })
        } else if 0xff30 <= addr && addr <= 0xff3f {
            self.aram[(addr - 0xff30) as usize]
        } else {
            0xff
        }
    }

    /// Writes a register. While the unit is off only the master control and
    /// wave RAM take writes. Clearing bit 7 of 0xFF26 switches the unit off
    /// and resets every other register; wave RAM keeps its contents.
    pub fn write(&mut self, addr: u16, val: u8)
        requires
            old(self).wf(),
        ensures
            final(self).wf(),
            !old(self).accepts(addr) ==> *final(self) == *old(self),
            addr == 0xff26 ==> final(self).master_enable == (val >= 128),
            addr == 0xff26 && val < 128 ==> final(self).silent() && final(self).aram@ == old(
                self,
            ).aram@,
            old(self).silent() && !(addr == 0xff26 && val >= 128) ==> final(self).silent(),
            0xff30 <= addr <= 0xff3f ==> final(self).aram@ == old(self).aram@.update(
                addr - 0xff30,
                val,
            ),
            old(self).master_enable && 0xff10 <= addr <= 0xff25 && addr != 0xff15 && addr != 0xff1f
                ==> final(self).spec_read(addr) == written_read(addr, val),
            old(self).master_enable && addr == 0xff14 ==> final(self).channel1.controlled(
                &old(self).channel1,
                val,
            ),
            old(self).master_enable && addr == 0xff19 ==> final(self).channel2.controlled(
                &old(self).channel2,
                val,
            ),
            old(self).master_enable && addr == 0xff1e ==> final(self).channel3.controlled(
                &old(self).channel3,
                val,
            ),
            old(self).master_enable && addr == 0xff23 ==> final(self).channel4.controlled(
                &old(self).channel4,
                val,
            ),
    {
        if !(self.master_enable || addr == 0xff26 || (0xff30 <= addr && addr <= 0xff3f)) {
            return;
        }
        if 0xff10 <= addr && addr <= 0xff14 {
            self.channel1.write(addr, val);
        } else if 0xff16 <= addr && addr <= 0xff19 {
            self.channel2.write(addr, val);
        } else if 0xff1a <= addr && addr <= 0xff1e {
            self.channel3.write(addr, val);
        } else if 0xff20 <= addr && addr <= 0xff23 {
            self.channel4.write(addr, val);
        } else if addr == 0xff24 {
            self.vin_left = val >= 128;
            self.left_volume = (val / 16) % 8;
            self.vin_right = (val / 8) % 2 == 1;
            self.right_volume = val % 8;
            proof {
                crate::bits::lemma_split_1_3_1_3(val);
            }
        } else if addr == 0xff25 {
            self.panning = Panning::new(val);
        } else if addr == 0xff26 {
            self.master_enable = val >= 128;
            if val < 128 {
                self.channel1 = Channel1::new();
                self.channel2 = Channel2::new();
                self.channel3 = Channel3::new();
                self.channel4 = Channel4::new();
                self.panning = Panning::new(0);
                self.vin_left = false;
                self.left_volume = 0;
                self.vin_right = false;
                self.right_volume = 0;
            }
        } else if 0xff30 <= addr && addr <= 0xff3f {
            self.aram.set((addr - 0xff30) as usize, val);
        }
        proof {
            if old(self).silent() && !(addr == 0xff26 && val >= 128) {
                assert forall|a: u16| 0xff10 <= a <= 0xff25 implies #[trigger] self.spec_read(a)
                    == unwritten_read(a) by {
                    if addr != 0xff26 {
                        assert(self.spec_read(a) == old(self).spec_read(a));
                    }
                }
            }
        }
    }

    /// One machine cycle: the channels' period counters step (the wave
    /// channel twice), then the mixed sample goes to the sampler; a finished
    /// block joins the output queue.
    #[verifier::rlimit(60)]
    pub fn tick(&mut self)
        requires
            old(self).wf(),
        ensures
            final(self).wf(),
            final(self).aram@ == old(self).aram@,
            final(self).master_enable == old(self).master_enable,
            forall|a: u16| 0xff10 <= a <= 0xff25 ==> #[trigger] final(self).spec_read(a) == old(
                self,
            ).spec_read(a),
            old(self).silent() ==> final(self).silent(),
            final(self).samples@.len() >= old(self).samples@.len(),
            final(self).channel1 == old(self).channel1.spec_tick(),
            final(self).channel2 == old(self).channel2.spec_tick(),
            final(self).channel3 == old(self).channel3.spec_tick().spec_tick(),
            final(self).channel4 == old(self).channel4.spec_tick(),
            final(self).panning == old(self).panning && final(self).left_volume == old(self).left_volume
                && final(self).right_volume == old(self).right_volume,
            ({
                let m = final(self).spec_mix();
                let (buf, out) = old(self).sampler.spec_push((m.0 as u32, m.1 as u32), old(self).interval_elapsed);
                &&& final(self).sampler.sample_buffer@ == buf
                &&& final(self).samples@ == match out {
                    Some(block) => old(self).samples@ + block,
                    None => old(self).samples@,
                }
                &&& final(self).interval_elapsed == (out is None && old(self).interval_elapsed)
            }),
    {
        self.tick_channels();
        let ghost mid = *self;
        let (l, r) = self.mix();
        if let Some(mut block) = self.sampler.push_sample((l, r), self.interval_elapsed) {
            self.samples.append(&mut block);
            self.interval_elapsed = false;
        }
        proof {
            assert(*self == (Apu {
                sampler: self.sampler,
                samples: self.samples,
                interval_elapsed: self.interval_elapsed,
                ..mid
            }));
            assert forall|a: u16| 0xff10 <= a <= 0xff25 implies #[trigger] self.spec_read(a) == mid.spec_read(a) by {}
        }
    }

    /// Steps the channels' period counters, the wave channel twice.
    fn tick_channels(&mut self)
        requires
            old(self).wf(),
        ensures
            final(self).wf(),
            *final(self) == (Apu {
                channel1: old(self).channel1.spec_tick(),
                channel2: old(self).channel2.spec_tick(),
                channel3: old(self).channel3.spec_tick().spec_tick(),
                channel4: old(self).channel4.spec_tick(),
                ..*old(self)
            }),
            forall|a: u16| 0xff10 <= a <= 0xff25 ==> #[trigger] final(self).spec_read(a) == old(
                self,
            ).spec_read(a),
    {
        self.channel1.tick();
        self.channel2.tick();
        self.channel3.tick();
        self.channel3.tick();
        self.channel4.tick();
        assert forall|a: u16| 0xff10 <= a <= 0xff25 implies #[trigger] self.spec_read(a) == old(
            self,
        ).spec_read(a) by {}
    }

    /// The mixed stereo sample of this cycle.
    pub fn mix(&self) -> (r: (u32, u32))
        requires
            self.wf(),
        ensures
            r.0 == self.spec_mix().0 && r.1 == self.spec_mix().1,
            r.0 < sampler::SAMPLE_LIMIT && r.1 < sampler::SAMPLE_LIMIT,
    {
        let (o1, o2, o3, o4) = self.outputs();
        let p = self.panning;
        let left = pan_sum(o1, o2, o3, o4, p.channel1.0, p.channel2.0, p.channel3.0, p.channel4.0);
        let right = pan_sum(o1, o2, o3, o4, p.channel1.1, p.channel2.1, p.channel3.1, p.channel4.1);
        (scale(left, self.left_volume), scale(right, self.right_volume))
    }

    /// Switches between real-time pacing and fast-forward.
    pub fn toggle_frame_limiter(&mut self)
        requires
            old(self).wf(),
        ensures
            final(self).wf(),
            final(self).sampler.limit_framerate == !old(self).sampler.limit_framerate,
    {
        self.sampler.limit_framerate = !self.sampler.limit_framerate;
    }

    /// Takes the cut-down samples produced so far.
    pub fn take_samples(&mut self) -> (r: Vec<(u32, u32)>)
        ensures
            r@ == old(self).samples@,
            final(self).samples@.len() == 0,
            final(self).wf() == old(self).wf(),
    {
        let mut out: Vec<(u32, u32)> = Vec::new();
        core::mem::swap(&mut out, &mut self.samples);
        out
    }

    /// One step of the frame sequencer for every channel.
    pub fn tick_frame_sequencer(&mut self)
        requires
            old(self).wf(),
        ensures
            final(self).wf(),
            final(self).aram@ == old(self).aram@,
            final(self).master_enable == old(self).master_enable,
            forall|a: u16| 0xff10 <= a <= 0xff25 ==> #[trigger] final(self).spec_read(a) == old(
                self,
            ).spec_read(a),
            old(self).silent() ==> final(self).silent(),
    {
        self.channel1.tick_frame_sequencer();
        self.channel2.tick_frame_sequencer();
        self.channel3.tick_frame_sequencer();
        self.channel4.tick_frame_sequencer();
        assert forall|a: u16| 0xff10 <= a <= 0xff25 implies #[trigger] self.spec_read(a) == old(
            self,
        ).spec_read(a) by {}
    }

    /// The four channels' digital outputs, 0 to 15 each.
    pub fn outputs(&self) -> (r: (u8, u8, u8, u8))
        requires
            self.wf(),
        ensures
            (r.0 as int, r.1 as int, r.2 as int, r.3 as int) == self.spec_outputs(),
            r.0 < 16 && r.1 < 16 && r.2 < 16 && r.3 < 16,
            r.0 == if self.channel1.dac_enabled && duty_bit(self.channel1.duty, self.channel1.duty_position) {
                self.channel1.volume.level
            } else {
                0
            },
            r.1 == if self.channel2.dac_enabled && duty_bit(self.channel2.duty, self.channel2.duty_position) {
                self.channel2.volume.level
            } else {
                0
            },
            r.2 == if self.channel3.dac_enabled {
                channel3::scaled(channel3::wave_sample(self.aram@, self.channel3.sample_index as int), self.channel3.volume)
            } else {
                0
            },
            r.3 == if self.channel4.dac_enabled && self.channel4.lfsr % 2 == 0 {
                self.channel4.volume.level
            } else {
                0
            },
    {
        (self.channel1.output(), self.channel2.output(), self.channel3.output(&self.aram), self.channel4.output())
    }
}

} // verus!
