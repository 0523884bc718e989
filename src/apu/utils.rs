//! The length counter, volume envelope and frequency sweep shared by the
//! audio channels.
use vstd::prelude::*;

verus! {

/// Counts a channel's remaining length down at 256 Hz and silences it at
/// zero.
pub struct LengthCounter {
    pub enable: bool,
    pub timer: u16,
    /// The last frame-sequencer step clocked the counter (the first half of
    /// a length period).
    pub tick: bool,
    /// The full length: 64, or 256 for the wave channel.
    pub max: u16,
}

impl LengthCounter {
    pub open spec fn wf(&self) -> bool {
        1 <= self.max <= 256 && self.timer <= self.max
    }

    /// The counter after one clock, and whether it expired.
    pub open spec fn spec_clock(self) -> (LengthCounter, bool) {
        if self.enable {
            let t: u16 = if self.timer > 0 { (self.timer - 1) as u16 } else { 0 };
            (LengthCounter { timer: t, ..self }, t == 0)
        } else {
            (self, false)
        }
    }

    /// The counter after its enable bit is set to `enable`, and whether the
    /// extra clock (enabling in the first half of a length period) expired it.
    pub open spec fn spec_set_enable(self, enable: bool) -> (LengthCounter, bool) {
        let l = LengthCounter { enable, ..self };
        if self.tick && enable && !self.enable {
            l.spec_clock()
        } else {
            (l, false)
        }
    }

    /// The counter after a trigger: an expired counter reloads to the full
    /// length, one less when enabled in the first half of a length period.
    pub open spec fn spec_trigger(self) -> LengthCounter {
        if self.timer == 0 {
            LengthCounter {
                timer: if self.tick && self.enable { (self.max - 1) as u16 } else { self.max },
                ..self
            }
        } else {
            self
        }
    }

    pub fn new(max: u16) -> (r: LengthCounter)
        requires
            1 <= max <= 256,
        ensures
            r.wf(),
            r == (LengthCounter { enable: false, timer: 0, tick: true, max }),
    {
        LengthCounter { enable: false, timer: 0, tick: true, max }
    }

    /// On a trigger an expired counter reloads to the full length, one less
    /// when enabled in the first half of a length period.
    pub fn trigger(&mut self)
        requires
            old(self).wf(),
        ensures
            final(self).wf(),
            *final(self) == old(self).spec_trigger(),
            *final(self) == if old(self).timer == 0 {
                LengthCounter {
                    timer: if old(self).tick && old(self).enable {
                        (old(self).max - 1) as u16
                    } else {
                        old(self).max
                    },
                    ..*old(self)
                }
            } else {
                *old(self)
            },
    {
        if self.timer == 0 {
            self.timer = if self.tick && self.enable { self.max - 1 } else { self.max };
        }
    }

    /// Loads the length: `max - val` clocks remain.
    pub fn set_timer(&mut self, val: u8)
        requires
            old(self).wf(),
            val < old(self).max,
        ensures
            final(self).wf(),
            *final(self) == (LengthCounter { timer: (old(self).max - val) as u16, ..*old(self) }),
    {
        self.timer = self.max - val as u16;
    }

    /// Sets the enable bit. Enabling in the first half of a length period
    /// clocks the counter once more; returns whether that clock expired it.
    pub fn set_enable(&mut self, enable: bool) -> (r: bool)
        requires
            old(self).wf(),
        ensures
            final(self).wf(),
            final(self).enable == enable,
            (*final(self), r) == old(self).spec_set_enable(enable),
            if old(self).tick && enable && !old(self).enable {
                (*final(self), r) == (LengthCounter { enable, ..*old(self) }).spec_clock()
            } else {
                *final(self) == (LengthCounter { enable, ..*old(self) }) && !r
            },
    {
        let extra_clock = self.tick && enable && !self.enable;
        self.enable = enable;
        if extra_clock {
            self.clock()
        } else {
            false
        }
    }

    pub fn is_enabled(&self) -> (r: bool)
        ensures
            r == self.enable,
    {
        self.enable
    }

    /// One frame-sequencer step: the counter is clocked on every other step.
    /// Returns whether the counter expired.
    pub fn tick(&mut self) -> (r: bool)
        requires
            old(self).wf(),
        ensures
            final(self).wf(),
            final(self).tick == !old(self).tick,
            if !old(self).tick {
                (*final(self), r) == (LengthCounter { tick: true, ..*old(self) }).spec_clock()
            } else {
                *final(self) == (LengthCounter { tick: false, ..*old(self) }) && !r
            },
    {
        self.tick = !self.tick;
        self.tick && self.clock()
    }

    fn clock(&mut self) -> (r: bool)
        requires
            old(self).wf(),
        ensures
            final(self).wf(),
            (*final(self), r) == old(self).spec_clock(),
    {
        if self.enable {
            self.timer = if self.timer > 0 { self.timer - 1 } else { 0 };
            self.timer == 0
        } else {
            false
        }
    }
}

/// Steps a channel's volume up or down at 64 Hz.
pub struct VolumeEnvelope {
    pub pace: u8,
    /// `true` counts up.
    pub direction: bool,
    pub initial_level: u8,
    pub level: u8,
    pub pace_timer: u8,
}

/// The pace with zero read as eight.
pub open spec fn spec_pace(pace: u8) -> u8 {
    if pace == 0 { 8 } else { pace }
}

impl VolumeEnvelope {
    /// One envelope step: with a nonzero pace the timer counts down, and at
    /// zero the level moves one step, within 0..=15, and the timer reloads.
    pub open spec fn spec_tick(self) -> VolumeEnvelope {
        if self.pace == 0 {
            self
        } else {
            let t = if self.pace_timer > 0 { self.pace_timer - 1 } else { 0 };
            if t == 0 {
                VolumeEnvelope {
                    level: if self.direction {
                        if self.level < 15 { (self.level + 1) as u8 } else { 15 }
                    } else {
                        if self.level > 0 { (self.level - 1) as u8 } else { 0 }
                    },
                    pace_timer: spec_pace(self.pace),
                    ..self
                }
            } else {
                VolumeEnvelope { pace_timer: t as u8, ..self }
            }
        }
    }

    pub open spec fn wf(&self) -> bool {
        self.pace < 8 && self.initial_level < 16 && self.level < 16 && self.pace_timer <= 8
    }

    pub fn new() -> (r: VolumeEnvelope)
        ensures
            r.wf(),
            r == (VolumeEnvelope { pace: 0, direction: false, initial_level: 0, level: 0, pace_timer: 0 }),
    {
        VolumeEnvelope { pace: 0, direction: false, initial_level: 0, level: 0, pace_timer: 0 }
    }

    /// Restarts the envelope at its initial level.
    pub fn trigger(&mut self)
        requires
            old(self).wf(),
        ensures
            final(self).wf(),
            *final(self) == (VolumeEnvelope {
                level: old(self).initial_level,
                pace_timer: spec_pace(old(self).pace),
                ..*old(self)
            }),
    {
        self.level = self.initial_level;
        self.pace_timer = self.get_pace();
    }

    /// One envelope step: with a nonzero pace the timer counts down, and at
    /// zero the level moves one step, within 0..=15, and the timer reloads.
    pub fn tick(&mut self)
        requires
            old(self).wf(),
        ensures
            final(self).wf(),
            *final(self) == old(self).spec_tick(),
    {
        if self.pace != 0 {
            if self.pace_timer > 0 {
                self.pace_timer = self.pace_timer - 1;
            }
            if self.pace_timer == 0 {
                if self.direction {
                    if self.level < 15 {
                        self.level = self.level + 1;
                    }
                } else if self.level > 0 {
                    self.level = self.level - 1;
                }
                self.pace_timer = self.get_pace();
            }
        }
    }

    pub fn get_level(&self) -> (r: u8)
        ensures
            r == self.level,
    {
        self.level
    }

    fn get_pace(&self) -> (r: u8)
        ensures
            r == spec_pace(self.pace),
    {
        if self.pace == 0 {
            8
        } else {
            self.pace
        }
    }

    /// The register byte: initial level, direction, pace.
    pub open spec fn spec_register(&self) -> int {
        self.initial_level * 16 + (if self.direction { 8int } else { 0 }) + self.pace
    }

    /// Loads the register byte.
    pub fn write_register(&mut self, val: u8)
        requires
            old(self).wf(),
        ensures
            final(self).wf(),
            final(self).spec_register() == val,
            final(self).level == old(self).level && final(self).pace_timer == old(self).pace_timer,
    {
        self.pace = val % 8;
        self.direction = (val / 8) % 2 == 1;
        self.initial_level = val / 16;
        proof {
            crate::bits::lemma_split_4_1_3(val);
        }
    }

    pub fn read_register(&self) -> (r: u8)
        requires
            self.wf(),
        ensures
            r == self.spec_register(),
    {
        self.initial_level * 16 + (if self.direction { 8u8 } else { 0 }) + self.pace
    }
}

/// The frequency sweep of the first pulse channel.
pub struct SweepEnvelope {
    /// The shift applied to the shadow period.
    pub step: u8,
    /// `true` sweeps down (subtracts).
    pub direction: bool,
    pub pace: u8,
    pub shadow_period: u16,
    pub pace_timer: u8,
    pub enabled: bool,
    /// A subtraction has been computed since the last trigger.
    pub negate_mode: bool,
}

impl SweepEnvelope {
    /// One sweep step and what it reports: when the pace timer runs out and
    /// the sweep is active, the next period is computed; above 2047 the
    /// channel is to be disabled, else with a nonzero step it is committed to
    /// the shadow and checked once more.
    pub open spec fn spec_tick(self) -> (SweepEnvelope, Option<(Option<u16>, bool)>) {
        if self.pace_timer == 0 {
            (self, None)
        } else if self.pace_timer - 1 != 0 {
            (SweepEnvelope { pace_timer: (self.pace_timer - 1) as u8, ..self }, None)
        } else {
            let s1 = SweepEnvelope { pace_timer: spec_pace(self.pace), ..self };
            if self.enabled && self.pace != 0 {
                let next = s1.spec_next();
                let s2 = SweepEnvelope { negate_mode: s1.negate_mode || s1.direction, ..s1 };
                if next > 2047 {
                    (s2, Some((None, true)))
                } else if self.step > 0 {
                    let s3 = SweepEnvelope { shadow_period: next as u16, ..s2 };
                    let s4 = SweepEnvelope { negate_mode: s3.negate_mode || s3.direction, ..s3 };
                    (s4, Some((Some(next as u16), s3.spec_next() > 2047)))
                } else {
                    (s2, None)
                }
            } else {
                (s1, None)
            }
        }
    }

    pub open spec fn wf(&self) -> bool {
        self.step < 8 && self.pace < 8 && self.shadow_period <= 2047 && self.pace_timer <= 8
    }

    /// The next period that the sweep computes from the shadow register.
    pub open spec fn spec_next(&self) -> int {
        if self.direction {
            self.shadow_period - (self.shadow_period >> self.step)
        } else {
            self.shadow_period + (self.shadow_period >> self.step)
        }
    }

    pub fn new() -> (r: SweepEnvelope)
        ensures
            r.wf(),
            r == (SweepEnvelope {
                step: 0,
                direction: false,
                pace: 0,
                shadow_period: 0,
                pace_timer: 0,
                enabled: false,
                negate_mode: false,
            }),
    {
        SweepEnvelope {
            step: 0,
            direction: false,
            pace: 0,
            shadow_period: 0,
            pace_timer: 0,
            enabled: false,
            negate_mode: false,
        }
    }

    /// On a trigger the shadow register takes the period and, with a nonzero
    /// step, one overflow check runs at once. Returns whether it overflowed.
    pub fn trigger(&mut self, period: u16) -> (r: bool)
        requires
            old(self).wf(),
            period <= 2047,
        ensures
            final(self).wf(),
            final(self).shadow_period == period,
            final(self).enabled == (old(self).pace != 0 || old(self).step != 0),
            final(self).pace_timer == spec_pace(old(self).pace),
            final(self).negate_mode == (old(self).step != 0 && old(self).direction),
            final(self).step == old(self).step && final(self).pace == old(self).pace,
            final(self).direction == old(self).direction,
            r == (old(self).step != 0 && final(self).spec_next() > 2047),
    {
        self.shadow_period = period;
        self.pace_timer = self.get_pace();
        self.enabled = self.pace != 0 || self.step != 0;
        self.negate_mode = false;
        self.step != 0 && self.next_period() > 2047
    }

    /// One sweep step. When the pace timer runs out and the sweep is active,
    /// returns the new period to commit (if the step is nonzero and it fits)
    /// and whether the channel is to be disabled: the first computation
    /// overflowed, or the second check after a commit did.
    pub fn tick(&mut self) -> (r: Option<(Option<u16>, bool)>)
        requires
            old(self).wf(),
        ensures
            final(self).wf(),
            final(self).step == old(self).step && final(self).pace == old(self).pace,
            final(self).direction == old(self).direction,
            (*final(self), r) == old(self).spec_tick(),
            r matches Some((Some(p), _)) ==> p <= 2047 && p == old(self).spec_next()
                && final(self).shadow_period == p && old(self).step > 0,
            r matches Some((None, d)) ==> d && old(self).spec_next() > 2047
                && final(self).shadow_period == old(self).shadow_period,
            r matches Some((Some(p), d)) ==> d == (final(self).spec_next() > 2047),
            r is None ==> final(self).shadow_period == old(self).shadow_period,
    {
        if self.pace_timer != 0 {
            self.pace_timer = self.pace_timer - 1;
            if self.pace_timer == 0 {
                self.pace_timer = self.get_pace();
                if self.enabled && self.pace != 0 {
                    let next_period = self.next_period();
                    if next_period > 2047 {
                        return Some((None, true));
                    } else if self.step > 0 {
                        self.shadow_period = next_period;
                        let again = self.next_period();
                        return Some((Some(next_period), again > 2047));
                    }
                }
            }
        }
        None
    }

    pub fn get_direction(&self) -> (r: bool)
        ensures
            r == self.direction,
    {
        self.direction
    }

    /// Sets the direction; returns `true` when a subtraction has been used
    /// since the trigger and the direction turns to addition, which disables
    /// the channel.
    pub fn set_direction(&mut self, direction: bool) -> (r: bool)
        requires
            old(self).wf(),
        ensures
            final(self).wf(),
            *final(self) == (SweepEnvelope { direction, ..*old(self) }),
            r == (old(self).negate_mode && !direction),
    {
        self.direction = direction;
        self.negate_mode && !direction
    }

    fn get_pace(&self) -> (r: u8)
        ensures
            r == spec_pace(self.pace),
    {
        if self.pace == 0 {
            8
        } else {
            self.pace
        }
    }

    /// Computes the next period; a subtraction latches `negate_mode`.
    fn next_period(&mut self) -> (r: u16)
        requires
            old(self).wf(),
        ensures
            final(self).wf(),
            r == old(self).spec_next(),
            *final(self) == (SweepEnvelope {
                negate_mode: old(self).negate_mode || old(self).direction,
                ..*old(self)
            }),
    {
        let delta = self.shadow_period >> self.step;
        proof {
            crate::bits::lemma_shr_le(self.shadow_period, self.step);
        }
        if self.direction {
            self.negate_mode = true;
            self.shadow_period - delta
        } else {
            self.shadow_period + delta
        }
    }
}

} // verus!
