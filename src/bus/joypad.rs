//! The button matrix behind register 0xFF00.
use vstd::prelude::*;

verus! {

/// The eight buttons of the console.
#[derive(Copy, Clone, PartialEq, Eq, Structural)]
pub enum JoypadButton {
    Up,
    Down,
    Left,
    Right,
    A,
    B,
    Start,
    Select,
}

pub struct Joypad {
    pub up: bool,
    pub down: bool,
    pub left: bool,
    pub right: bool,
    pub a: bool,
    pub b: bool,
    pub start: bool,
    pub select: bool,
    /// The action-button row is selected (bit 5 of 0xFF00 written as 0).
    pub buttons: bool,
    /// The direction row is selected (bit 4 of 0xFF00 written as 0).
    pub dpad: bool,
    /// An interrupt is pending since the last poll.
    pub interrupt: bool,
}

impl Joypad {
    /// Whether input line `k` (0 to 3) is pulled low by a pressed button of a
    /// selected row.
    pub open spec fn line_low(&self, k: int) -> bool {
        if k == 0 {
            (self.dpad && self.right) || (self.buttons && self.a)
        } else if k == 1 {
            (self.dpad && self.left) || (self.buttons && self.b)
        } else if k == 2 {
            (self.dpad && self.up) || (self.buttons && self.select)
        } else {
            (self.dpad && self.down) || (self.buttons && self.start)
        }
    }

    /// The low nibble of 0xFF00: a line reads 1 unless pulled low.
    pub open spec fn spec_nibble(&self) -> int {
        (if self.line_low(0) { 0int } else { 1 }) + (if self.line_low(1) { 0int } else { 2 }) + (
        if self.line_low(2) { 0int } else { 4 }) + (if self.line_low(3) { 0int } else { 8 })
    }

    /// Some line that read 1 in `old` reads 0 in `self`.
    pub open spec fn falling_edge(&self, old: &Joypad) -> bool {
        exists|k: int| 0 <= k < 4 && !old.line_low(k) && self.line_low(k)
    }

    /// No button pressed, both rows selected, no interrupt pending.
    pub fn new() -> (r: Joypad)
        ensures
            !r.up && !r.down && !r.left && !r.right && !r.a && !r.b && !r.start && !r.select,
            r.buttons && r.dpad && !r.interrupt,
    {
        Joypad {
            up: false,
            down: false,
            left: false,
            right: false,
            a: false,
            b: false,
            start: false,
            select: false,
            buttons: true,
            dpad: true,
            interrupt: false,
        }
    }

    /// Takes the pending interrupt, if any.
    pub fn poll(&mut self) -> (r: bool)
        ensures
            r == old(self).interrupt,
            *final(self) == (Joypad { interrupt: false, ..*old(self) }),
    {
        let r = self.interrupt;
        self.interrupt = false;
        r
    }

    fn line(&self, k: u8) -> (r: bool)
        requires
            k < 4,
        ensures
            r == self.line_low(k as int),
    {
        match k {
            0 => (self.dpad && self.right) || (self.buttons && self.a),
            1 => (self.dpad && self.left) || (self.buttons && self.b),
            2 => (self.dpad && self.up) || (self.buttons && self.select),
            _ => (self.dpad && self.down) || (self.buttons && self.start),
        }
    }

    /// Whether some line went from 1 to 0 between `old` and `self`.
    fn edge_from(&self, old: &Joypad) -> (r: bool)
        ensures
            r == self.falling_edge(old),
    {
        let r = (!old.line(0) && self.line(0)) || (!old.line(1) && self.line(1)) || (!old.line(2)
            && self.line(2)) || (!old.line(3) && self.line(3));
        if r {
            assert(self.falling_edge(old));
        }
        r
    }

    fn read_nibble(&self) -> (r: u8)
        ensures
            r == self.spec_nibble(),
    {
        (if self.line(0) { 0u8 } else { 1 }) + (if self.line(1) { 0u8 } else { 2 }) + (if self.line(
            2,
        ) { 0u8 } else { 4 }) + (if self.line(3) { 0u8 } else { 8 })
    }

    /// Sets a button's state; a line newly pulled low requests the interrupt.
    pub fn update_button(&mut self, button: JoypadButton, pressed: bool)
        ensures
            final(self).buttons == old(self).buttons && final(self).dpad == old(self).dpad,
            match button {
                JoypadButton::Up => final(self).up == pressed && final(self).down == old(self).down
                    && final(self).left == old(self).left && final(self).right == old(self).right
                    && final(self).a == old(self).a && final(self).b == old(self).b
                    && final(self).start == old(self).start && final(self).select == old(self).select,
                JoypadButton::Down => final(self).down == pressed && final(self).up == old(self).up
                    && final(self).left == old(self).left && final(self).right == old(self).right
                    && final(self).a == old(self).a && final(self).b == old(self).b
                    && final(self).start == old(self).start && final(self).select == old(self).select,
                JoypadButton::Left => final(self).left == pressed && final(self).up == old(self).up
                    && final(self).down == old(self).down && final(self).right == old(self).right
                    && final(self).a == old(self).a && final(self).b == old(self).b
                    && final(self).start == old(self).start && final(self).select == old(self).select,
                JoypadButton::Right => final(self).right == pressed && final(self).up == old(self).up
                    && final(self).down == old(self).down && final(self).left == old(self).left
                    && final(self).a == old(self).a && final(self).b == old(self).b
                    && final(self).start == old(self).start && final(self).select == old(self).select,
                JoypadButton::A => final(self).a == pressed && final(self).up == old(self).up
                    && final(self).down == old(self).down && final(self).left == old(self).left
                    && final(self).right == old(self).right && final(self).b == old(self).b
                    && final(self).start == old(self).start && final(self).select == old(self).select,
                JoypadButton::B => final(self).b == pressed && final(self).up == old(self).up
                    && final(self).down == old(self).down && final(self).left == old(self).left
                    && final(self).right == old(self).right && final(self).a == old(self).a
                    && final(self).start == old(self).start && final(self).select == old(self).select,
                JoypadButton::Start => final(self).start == pressed && final(self).up == old(self).up
                    && final(self).down == old(self).down && final(self).left == old(self).left
                    && final(self).right == old(self).right && final(self).a == old(self).a
                    && final(self).b == old(self).b && final(self).select == old(self).select,
                JoypadButton::Select => final(self).select == pressed && final(self).up == old(self).up
                    && final(self).down == old(self).down && final(self).left == old(self).left
                    && final(self).right == old(self).right && final(self).a == old(self).a
                    && final(self).b == old(self).b && final(self).start == old(self).start,
            },
            final(self).interrupt == (old(self).interrupt || final(self).falling_edge(old(self))),
    {
        let before = Joypad { ..*self };
        match button {
            JoypadButton::Up => self.up = pressed,
            JoypadButton::Down => self.down = pressed,
            JoypadButton::Left => self.left = pressed,
            JoypadButton::Right => self.right = pressed,
            JoypadButton::A => self.a = pressed,
            JoypadButton::B => self.b = pressed,
            JoypadButton::Start => self.start = pressed,
            JoypadButton::Select => self.select = pressed,
        }
        if self.edge_from(&before) {
            self.interrupt = true;
        }
    }

    pub open spec fn spec_read(&self) -> u8 {
        (0xc0 + (if self.buttons { 0int } else { 0x20 }) + (if self.dpad { 0int } else { 0x10 })
            + self.spec_nibble()) as u8
    }

    /// The value of 0xFF00: bits 7 and 6 read 1, bits 5 and 4 the row
    /// selection (0 = selected), bits 3 to 0 the input lines.
    pub fn read(&self) -> (r: u8)
        ensures
            r == self.spec_read(),
            r == 0xc0 + (if self.buttons { 0int } else { 0x20 }) + (if self.dpad { 0int } else { 0x10 })
                + self.spec_nibble(),
    {
        0xc0 + (if self.buttons { 0u8 } else { 0x20 }) + (if self.dpad { 0u8 } else { 0x10 })
            + self.read_nibble()
    }

    /// A write to 0xFF00 selects the rows (active low in bits 5 and 4); a line
    /// newly pulled low requests the interrupt.
    pub fn write(&mut self, val: u8)
        ensures
            final(self).buttons == (val / 32 % 2 == 0),
            final(self).dpad == (val / 16 % 2 == 0),
            final(self).up == old(self).up && final(self).down == old(self).down,
            final(self).left == old(self).left && final(self).right == old(self).right,
            final(self).a == old(self).a && final(self).b == old(self).b,
            final(self).start == old(self).start && final(self).select == old(self).select,
            final(self).interrupt == (old(self).interrupt || final(self).falling_edge(old(self))),
    {
        let before = Joypad { ..*self };
        self.buttons = val / 32 % 2 == 0;
        self.dpad = val / 16 % 2 == 0;
        if self.edge_from(&before) {
            self.interrupt = true;
        }
    }
}

} // verus!
