//! Keyboard bindings: which key drives which joypad button or emulator
//! action, and what a key event means.
use vstd::prelude::*;

pub use crate::bus::joypad::JoypadButton;

verus! {

/// What a bound key does.
#[derive(Copy, Clone, PartialEq, Eq, Structural)]
pub enum Hotkey {
    Joypad(JoypadButton),
    ToggleFrameLimiter,
}

/// The keys that can be bound.
#[derive(Copy, Clone, PartialEq, Eq, Structural, Debug)]
pub enum KeyCode {
    A,
    B,
    C,
    D,
    E,
    F,
    G,
    H,
    I,
    J,
    K,
    L,
    M,
    N,
    O,
    P,
    Q,
    R,
    S,
    T,
    U,
    V,
    W,
    X,
    Y,
    Z,
    Up,
    Down,
    Left,
    Right,
    Enter,
    Space,
    Tab,
}

/// A key as the window reports it: Escape, a bindable key, or another key.
#[derive(Copy, Clone, PartialEq, Eq, Structural)]
pub enum Key {
    Escape,
    Code(KeyCode),
    Other,
}

/// What the host loop is asked to do.
#[derive(Copy, Clone)]
pub enum DisplayEvent {
    /// A bound key was pressed (`true`) or released.
    Hotkey((Hotkey, bool)),
    RedrawRequested,
    Quit,
}

#[derive(Copy, Clone, PartialEq, Eq, Structural)]
pub struct JoypadBindings {
    pub up: KeyCode,
    pub down: KeyCode,
    pub left: KeyCode,
    pub right: KeyCode,
    pub a: KeyCode,
    pub b: KeyCode,
    pub start: KeyCode,
    pub select: KeyCode,
}

impl JoypadBindings {
    /// Arrows for the pad, X and Z for A and B, Enter and Tab for Start and
    /// Select.
    pub fn default() -> (r: JoypadBindings)
        ensures
            r == (JoypadBindings {
                up: KeyCode::Up,
                down: KeyCode::Down,
                left: KeyCode::Left,
                right: KeyCode::Right,
                a: KeyCode::X,
                b: KeyCode::Z,
                start: KeyCode::Enter,
                select: KeyCode::Tab,
            }),
    {
        JoypadBindings {
            up: KeyCode::Up,
            down: KeyCode::Down,
            left: KeyCode::Left,
            right: KeyCode::Right,
            a: KeyCode::X,
            b: KeyCode::Z,
            start: KeyCode::Enter,
            select: KeyCode::Tab,
        }
    }
}

#[derive(Copy, Clone, PartialEq, Eq, Structural)]
pub struct EmuBindings {
    pub toggle_frame_limiter: KeyCode,
}

impl EmuBindings {
    /// Space toggles the frame limiter.
    pub fn default() -> (r: EmuBindings)
        ensures
            r.toggle_frame_limiter == KeyCode::Space,
    {
        EmuBindings { toggle_frame_limiter: KeyCode::Space }
    }
}

#[derive(Copy, Clone, PartialEq, Eq, Structural)]
pub struct Keybindings {
    pub joypad: JoypadBindings,
    pub emu: EmuBindings,
}

impl Keybindings {
    pub fn default() -> (r: Keybindings)
        ensures
            r.joypad == JoypadBindings::default_spec(),
            r.emu.toggle_frame_limiter == KeyCode::Space,
    {
        Keybindings { joypad: JoypadBindings::default(), emu: EmuBindings::default() }
    }
}

impl JoypadBindings {
    pub open spec fn default_spec() -> JoypadBindings {
        JoypadBindings {
            up: KeyCode::Up,
            down: KeyCode::Down,
            left: KeyCode::Left,
            right: KeyCode::Right,
            a: KeyCode::X,
            b: KeyCode::Z,
            start: KeyCode::Enter,
            select: KeyCode::Tab,
        }
    }
}

/// The name of a key as a configuration file writes it.
pub open spec fn key_name(k: KeyCode) -> Seq<u8> {
    match k {
        KeyCode::A => seq![65u8],
        KeyCode::B => seq![66u8],
        KeyCode::C => seq![67u8],
        KeyCode::D => seq![68u8],
        KeyCode::E => seq![69u8],
        KeyCode::F => seq![70u8],
        KeyCode::G => seq![71u8],
        KeyCode::H => seq![72u8],
        KeyCode::I => seq![73u8],
        KeyCode::J => seq![74u8],
        KeyCode::K => seq![75u8],
        KeyCode::L => seq![76u8],
        KeyCode::M => seq![77u8],
        KeyCode::N => seq![78u8],
        KeyCode::O => seq![79u8],
        KeyCode::P => seq![80u8],
        KeyCode::Q => seq![81u8],
        KeyCode::R => seq![82u8],
        KeyCode::S => seq![83u8],
        KeyCode::T => seq![84u8],
        KeyCode::U => seq![85u8],
        KeyCode::V => seq![86u8],
        KeyCode::W => seq![87u8],
        KeyCode::X => seq![88u8],
        KeyCode::Y => seq![89u8],
        KeyCode::Z => seq![90u8],
        KeyCode::Up => seq![85u8, 112u8],
        KeyCode::Down => seq![68u8, 111u8, 119u8, 110u8],
        KeyCode::Left => seq![76u8, 101u8, 102u8, 116u8],
        KeyCode::Right => seq![82u8, 105u8, 103u8, 104u8, 116u8],
        KeyCode::Enter => seq![69u8, 110u8, 116u8, 101u8, 114u8],
        KeyCode::Space => seq![83u8, 112u8, 97u8, 99u8, 101u8],
        KeyCode::Tab => seq![84u8, 97u8, 98u8],
    }
}

/// A name with its first letter upper-cased.
pub open spec fn capitalize(s: Seq<u8>) -> Seq<u8> {
    if s.len() > 0 && 97 <= s[0] <= 122 {
        s.update(0, (s[0] - 32) as u8)
    } else {
        s
    }
}

/// The letter key at index `i` of the alphabet.
fn letter(i: u8) -> (r: KeyCode)
    requires
        i < 26,
    ensures
        key_name(r) == seq![(i + 65) as u8],
{
    match i {
        0 => KeyCode::A,
        1 => KeyCode::B,
        2 => KeyCode::C,
        3 => KeyCode::D,
        4 => KeyCode::E,
        5 => KeyCode::F,
        6 => KeyCode::G,
        7 => KeyCode::H,
        8 => KeyCode::I,
        9 => KeyCode::J,
        10 => KeyCode::K,
        11 => KeyCode::L,
        12 => KeyCode::M,
        13 => KeyCode::N,
        14 => KeyCode::O,
        15 => KeyCode::P,
        16 => KeyCode::Q,
        17 => KeyCode::R,
        18 => KeyCode::S,
        19 => KeyCode::T,
        20 => KeyCode::U,
        21 => KeyCode::V,
        22 => KeyCode::W,
        23 => KeyCode::X,
        24 => KeyCode::Y,
        _ => KeyCode::Z,
    }
}

fn bytes_eq(a: &Vec<u8>, b: &Vec<u8>) -> (r: bool)
    ensures
        r == (a@ == b@),
{
    if a.len() != b.len() {
        return false;
    }
    let mut i: usize = 0;
    while i < a.len()
        invariant
            a.len() == b.len(),
            i <= a.len(),
            forall|j: int| 0 <= j < i ==> a@[j] == b@[j],
        decreases a.len() - i,
    {
        if a[i] != b[i] {
            return false;
        }
        i = i + 1;
    }
    assert(a@ =~= b@);
    true
}

impl KeyCode {
    /// The key a configuration name stands for: the name of a variant,
    /// its first letter in either case.
    pub fn from_name(name: &[u8]) -> (r: Option<KeyCode>)
        ensures
            r matches Some(k) ==> key_name(k) == capitalize(name@),
            r is None ==> forall|k: KeyCode| key_name(k) != capitalize(name@),
    {
        let mut c: Vec<u8> = Vec::new();
        let mut i: usize = 0;
        while i < name.len()
            invariant
                i <= name.len(),
                c@ == name@.subrange(0, i as int),
            decreases name.len() - i,
        {
            c.push(name[i]);
            i = i + 1;
        }
        assert(c@ =~= name@);
        if c.len() > 0 && 97 <= c[0] && c[0] <= 122 {
            let up = c[0] - 32;
            c.set(0, up);
        }
        assert(c@ == capitalize(name@));
        if c.len() == 1 && 65 <= c[0] && c[0] <= 90 {
            let k = letter(c[0] - 65);
            assert(key_name(k) =~= c@);
            return Some(k);
        }
        if bytes_eq(&c, &vec![85u8, 112u8]) {
            return Some(KeyCode::Up);
        }
        if bytes_eq(&c, &vec![68u8, 111u8, 119u8, 110u8]) {
            return Some(KeyCode::Down);
        }
        if bytes_eq(&c, &vec![76u8, 101u8, 102u8, 116u8]) {
            return Some(KeyCode::Left);
        }
        if bytes_eq(&c, &vec![82u8, 105u8, 103u8, 104u8, 116u8]) {
            return Some(KeyCode::Right);
        }
        if bytes_eq(&c, &vec![69u8, 110u8, 116u8, 101u8, 114u8]) {
            return Some(KeyCode::Enter);
        }
        if bytes_eq(&c, &vec![83u8, 112u8, 97u8, 99u8, 101u8]) {
            return Some(KeyCode::Space);
        }
        if bytes_eq(&c, &vec![84u8, 97u8, 98u8]) {
            return Some(KeyCode::Tab);
        }
        proof {
            assert forall|k: KeyCode| key_name(k) != c@ by {
                if key_name(k).len() == 1 {
                    assert(key_name(k)[0] != c@[0] || c@.len() != 1);
                }
            }
        }
        None
    }
}

/// The hotkey of the last binding of `key` in `map`, if any.
pub open spec fn lookup(map: Seq<(KeyCode, Hotkey)>, key: KeyCode) -> Option<Hotkey>
    decreases map.len(),
{
    if map.len() == 0 {
        None
    } else if map.last().0 == key {
        Some(map.last().1)
    } else {
        lookup(map.drop_last(), key)
    }
}

/// The bindings in order; a key bound twice keeps its last binding.
pub struct KeyMap {
    pub map: Vec<(KeyCode, Hotkey)>,
}

/// The binding list that a set of key bindings gives.
pub open spec fn binding_list(keys: Keybindings) -> Seq<(KeyCode, Hotkey)> {
    seq![
        (keys.joypad.up, Hotkey::Joypad(JoypadButton::Up)),
        (keys.joypad.down, Hotkey::Joypad(JoypadButton::Down)),
        (keys.joypad.left, Hotkey::Joypad(JoypadButton::Left)),
        (keys.joypad.right, Hotkey::Joypad(JoypadButton::Right)),
        (keys.joypad.a, Hotkey::Joypad(JoypadButton::A)),
        (keys.joypad.b, Hotkey::Joypad(JoypadButton::B)),
        (keys.joypad.start, Hotkey::Joypad(JoypadButton::Start)),
        (keys.joypad.select, Hotkey::Joypad(JoypadButton::Select)),
        (keys.emu.toggle_frame_limiter, Hotkey::ToggleFrameLimiter),
    ]
}

impl KeyMap {
    pub fn new(keys: &Keybindings) -> (r: KeyMap)
        ensures
            r.map@ == binding_list(*keys),
    {
        let map = vec![
            (keys.joypad.up, Hotkey::Joypad(JoypadButton::Up)),
            (keys.joypad.down, Hotkey::Joypad(JoypadButton::Down)),
            (keys.joypad.left, Hotkey::Joypad(JoypadButton::Left)),
            (keys.joypad.right, Hotkey::Joypad(JoypadButton::Right)),
            (keys.joypad.a, Hotkey::Joypad(JoypadButton::A)),
            (keys.joypad.b, Hotkey::Joypad(JoypadButton::B)),
            (keys.joypad.start, Hotkey::Joypad(JoypadButton::Start)),
            (keys.joypad.select, Hotkey::Joypad(JoypadButton::Select)),
            (keys.emu.toggle_frame_limiter, Hotkey::ToggleFrameLimiter),
        ];
        assert(map@ =~= binding_list(*keys));
        KeyMap { map }
    }

    /// The action bound to `key`.
    pub fn get_hotkey(&self, key: KeyCode) -> (r: Option<Hotkey>)
        ensures
            r == lookup(self.map@, key),
    {
        let mut i = self.map.len();
        assert(self.map@.subrange(0, i as int) =~= self.map@);
        while i > 0
            invariant
                i <= self.map.len(),
                lookup(self.map@, key) == lookup(self.map@.subrange(0, i as int), key),
            decreases i,
        {
            let (k, h) = self.map[i - 1];
            let ghost prefix = self.map@.subrange(0, i as int);
            assert(prefix.drop_last() =~= self.map@.subrange(0, i - 1));
            if k == key {
                return Some(h);
            }
            i = i - 1;
        }
        assert(self.map@.subrange(0, 0) =~= Seq::<(KeyCode, Hotkey)>::empty());
        None
    }

    /// What a key event means, repeats ignored: pressing Escape quits; a
    /// bound key reports its action with the press or release.
    pub fn process_keyevent(&self, key: Key, pressed: bool, repeat: bool) -> (r: Option<DisplayEvent>)
        ensures
            repeat ==> r is None,
            !repeat && pressed && key == Key::Escape ==> r == Some(DisplayEvent::Quit),
            !repeat && key == Key::Other ==> r is None,
            !repeat && !pressed && key == Key::Escape ==> r is None,
            !repeat ==> (key matches Key::Code(k) ==> r == match lookup(self.map@, k) {
                Some(h) => Some(DisplayEvent::Hotkey((h, pressed))),
                None => None::<DisplayEvent>,
            }),
    {
        if repeat {
            return None;
        }
        match key {
            Key::Escape => if pressed {
                Some(DisplayEvent::Quit)
            } else {
                None
            },
            Key::Code(k) => match self.get_hotkey(k) {
                Some(h) => Some(DisplayEvent::Hotkey((h, pressed))),
                None => None,
            },
            Key::Other => None,
        }
    }
}

} // verus!
