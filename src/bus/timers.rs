//! The divider and the programmable timer.
use vstd::prelude::*;
use crate::bits::{bit16, bit8, BitExtract};

verus! {

pub struct Timers {
    /// The 16-bit divider; its high byte is visible at 0xFF04.
    pub div: u16,
    pub tima: u8,
    pub tma: u8,
    pub tac: u8,
    /// The output of the timer's edge detector at the last cycle.
    pub result: bool,
    /// TIMA overflowed at the last cycle; the reload and interrupt are pending.
    pub overflow: bool,
}

/// What one machine cycle of the timers signals to the rest of the machine.
#[derive(Copy, Clone, PartialEq, Eq, Structural)]
pub struct TimerEvents {
    /// The timer interrupt is requested.
    pub interrupt: bool,
    /// Bit 12 of the divider fell: the audio frame sequencer steps.
    pub frame_sequencer: bool,
}

/// The divider bit whose falling edge clocks TIMA, by the low bits of TAC.
pub open spec fn tac_bit(tac: u8) -> u8 {
    if tac % 4 == 0 { 9 }
    else if tac % 4 == 1 { 3 }
    else if tac % 4 == 2 { 5 }
    else { 7 }
}

fn tac_bit_of(tac: u8) -> (r: u8)
    ensures
        r == tac_bit(tac),
{
    match tac % 4 {
        0 => 9,
        1 => 3,
        2 => 5,
        _ => 7,
    }
}

/// The edge detector's input for a divider value and a TAC value.
pub open spec fn timer_input(div: u16, tac: u8) -> bool {
    bit16(div, tac_bit(tac)) && bit8(tac, 2)
}

impl Timers {
    /// The edge detector holds the current input: the AND of the selected
    /// DIV bit and TAC bit 2.
    pub open spec fn wf(&self) -> bool {
        self.result == timer_input(self.div, self.tac)
    }

    /// TIMA after one count: it wraps to 0 and marks the overflow.
    pub open spec fn spec_clock(self) -> Timers {
        if self.tima == 255 {
            Timers { tima: 0, overflow: true, ..self }
        } else {
            Timers { tima: (self.tima + 1) as u8, ..self }
        }
    }

    /// The timer after setting the edge detector's input to `input`: a
    /// falling edge counts TIMA once.
    pub open spec fn spec_edge(self, input: bool) -> Timers {
        let t = if self.result && !input { self.spec_clock() } else { self };
        Timers { result: input, ..t }
    }

    /// The timer one machine cycle later, and what that cycle signals.
    pub open spec fn spec_increment(self) -> (Timers, TimerEvents) {
        let div = ((self.div + 4) % 65536) as u16;
        let input = timer_input(div, self.tac);
        let counted = if self.result && !input { self.spec_clock() } else { self };
        let t = Timers { div, result: input, ..counted };
        let fs = bit16(self.div, 12) && !bit16(div, 12);
        if self.overflow {
            (Timers { tima: self.tma, overflow: false, ..t }, TimerEvents { interrupt: true, frame_sequencer: fs })
        } else {
            (t, TimerEvents { interrupt: false, frame_sequencer: fs })
        }
    }

    fn clock(&mut self)
        ensures
            *final(self) == old(self).spec_clock(),
    {
        if self.tima == 255 {
            self.tima = 0;
            self.overflow = true;
        } else {
            self.tima = self.tima + 1;
        }
    }

    /// A write to TAC (unused bits read as 1); turning the input off counts
    /// TIMA once, as any falling edge does.
    pub fn write_tac(&mut self, val: u8)
        requires
            old(self).wf(),
        ensures
            final(self).wf(),
            *final(self) == (Timers { tac: val | 0xf8, ..*old(self) }).spec_edge(
                timer_input(old(self).div, val | 0xf8),
            ),
    {
        self.tac = val | 0xf8;
        let input = self.div.bit(tac_bit_of(self.tac)) && self.tac.bit(2);
        if self.result && !input {
            self.clock();
        }
        self.result = input;
    }

    /// The state after power-on: everything zero, TAC's unused bits set.
    pub fn new() -> (r: Timers)
        ensures
            r.wf(),
            r.div == 0 && r.tima == 0 && r.tma == 0 && r.tac == 0xf8,
            !r.result && !r.overflow,
    {
        proof {
            crate::bits::lemma_zero_bit16(tac_bit(0xf8));
        }
        Timers { div: 0, tima: 0, tma: 0, tac: 0xf8, result: false, overflow: false }
    }

    /// One machine cycle: DIV advances by 4, TIMA counts on a falling edge of
    /// the selected DIV bit while TAC bit 2 is set, and an overflow reloads
    /// TIMA from TMA and raises the interrupt one cycle later.
    pub fn increment(&mut self) -> (r: TimerEvents)
        ensures
            old(self).wf() ==> final(self).wf(),
            (*final(self), r) == old(self).spec_increment(),
            final(self).div == (old(self).div + 4) % 65536,
            r.frame_sequencer == (bit16(old(self).div, 12) && !bit16(final(self).div, 12)),
            final(self).result == timer_input(final(self).div, old(self).tac),
            r.interrupt == old(self).overflow,
            final(self).tma == old(self).tma && final(self).tac == old(self).tac,
            old(self).overflow ==> final(self).tima == old(self).tma && !final(self).overflow,
            !old(self).overflow ==> if old(self).result && !final(self).result {
                if old(self).tima == 255 {
                    final(self).tima == 0 && final(self).overflow
                } else {
                    final(self).tima == old(self).tima + 1 && !final(self).overflow
                }
            } else {
                final(self).tima == old(self).tima && !final(self).overflow
            },
    {
        let old_div = self.div;
        self.div = self.div.wrapping_add(4);
        let frame_sequencer = old_div.bit(12) && !self.div.bit(12);
        let bit = tac_bit_of(self.tac);
        let new_result = self.div.bit(bit) && self.tac.bit(2);
        let interrupt = self.overflow;
        if self.result && !new_result {
            if self.tima == 255 {
                self.overflow = true;
                self.tima = 0;
            } else {
                self.tima = self.tima + 1;
            }
        }
        self.result = new_result;
        if interrupt {
            self.tima = self.tma;
            self.overflow = false;
        }
        TimerEvents { interrupt, frame_sequencer }
    }

    /// A write to 0xFF04 clears the whole divider; when the selected DIV bit
    /// was set with TAC bit 2, that falling edge counts TIMA once.
    pub fn reset_div(&mut self)
        requires
            old(self).wf(),
        ensures
            final(self).wf(),
            final(self).div == 0,
            *final(self) == (Timers { div: 0, ..*old(self) }).spec_edge(false),
    {
        if self.result {
            self.clock();
        }
        self.div = 0;
        self.result = false;
        proof {
            crate::bits::lemma_zero_bit16(tac_bit(self.tac));
        }
    }

    /// A write to TIMA; during the cycle after an overflow it cancels the
    /// pending reload and interrupt.
    pub fn write_tima(&mut self, val: u8)
        requires
            old(self).wf(),
        ensures
            final(self).wf(),
            *final(self) == (Timers { tima: val, overflow: false, ..*old(self) }),
    {
        self.tima = val;
        self.overflow = false;
    }

    /// The visible divider register: the high byte of DIV.
    pub fn read_div(&self) -> (r: u8)
        ensures
            r == self.div / 256,
    {
        (self.div / 256) as u8
    }
}

} // verus!
