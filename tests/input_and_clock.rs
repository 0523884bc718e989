use rgb::bus::timers::Timers;
use rgb::apu::sampler::Sampler;
use rgb::apu::Apu;
use rgb::bus::cartridge::mbc3::Rtc;
use rgb::bus::cartridge::Cartridge;
use rgb::hotkeys::{DisplayEvent, Hotkey, JoypadButton, Key, KeyCode, KeyMap, Keybindings};
use rgb::ppu::{Pixel, Ppu};

#[test]
fn key_names_parse_with_either_case() {
    assert_eq!(KeyCode::from_name(b"x"), Some(KeyCode::X));
    assert_eq!(KeyCode::from_name(b"X"), Some(KeyCode::X));
    assert_eq!(KeyCode::from_name(b"up"), Some(KeyCode::Up));
    assert_eq!(KeyCode::from_name(b"Space"), Some(KeyCode::Space));
    assert_eq!(KeyCode::from_name(b"tab"), Some(KeyCode::Tab));
    assert_eq!(KeyCode::from_name(b"UP"), None);
    assert_eq!(KeyCode::from_name(b""), None);
    assert_eq!(KeyCode::from_name(b"xx"), None);
}

#[test]
fn default_keymap_lookup() {
    let map = KeyMap::new(&Keybindings::default());
    assert!(matches!(map.get_hotkey(KeyCode::X), Some(Hotkey::Joypad(JoypadButton::A))));
    assert!(matches!(map.get_hotkey(KeyCode::Space), Some(Hotkey::ToggleFrameLimiter)));
    assert!(map.get_hotkey(KeyCode::Q).is_none());
}

#[test]
fn later_binding_wins() {
    let mut keys = Keybindings::default();
    keys.emu.toggle_frame_limiter = KeyCode::X;
    let map = KeyMap::new(&keys);
    assert!(matches!(map.get_hotkey(KeyCode::X), Some(Hotkey::ToggleFrameLimiter)));
}

#[test]
fn key_events() {
    let map = KeyMap::new(&Keybindings::default());
    assert!(matches!(map.process_keyevent(Key::Escape, true, false), Some(DisplayEvent::Quit)));
    assert!(map.process_keyevent(Key::Escape, false, false).is_none());
    assert!(map.process_keyevent(Key::Code(KeyCode::Z), true, true).is_none());
    assert!(matches!(
        map.process_keyevent(Key::Code(KeyCode::Z), false, false),
        Some(DisplayEvent::Hotkey((Hotkey::Joypad(JoypadButton::B), false)))
    ));
    assert!(map.process_keyevent(Key::Other, true, false).is_none());
}

#[test]
fn rtc_counts_seconds() {
    let mut rtc = Rtc::new();
    for _ in 0..(32768 * 32) {
        rtc.increment();
    }
    assert_eq!(rtc.internal_state.seconds, 1);
    rtc.latch(0);
    rtc.latch(1);
    assert_eq!(rtc.read(0x08), 1);
    rtc.write(0x0c, 0x40);
    assert!(rtc.halted);
    for _ in 0..(32768 * 32) {
        rtc.increment();
    }
    assert_eq!(rtc.internal_state.seconds, 1);
    assert_eq!(rtc.read(0x0c), 0x40);
}

#[test]
fn mbc3_bank_and_ram() {
    let mut rom = Vec::new();
    for b in 0..8u8 {
        rom.extend(std::iter::repeat(b).take(0x4000));
    }
    rom[0x147] = 0x13;
    rom[0x148] = 2;
    rom[0x149] = 3;
    let mut cart = Cartridge::new(rom).unwrap();
    cart.write(0x2000, 0);
    assert_eq!(cart.read(0x4000), 1);
    cart.write(0x2000, 7);
    assert_eq!(cart.read(0x4000), 7);
    cart.write(0x0000, 0x0a);
    cart.write(0x4000, 2);
    cart.write(0xa123, 0x99);
    assert_eq!(cart.read(0xa123), 0x99);
    cart.write(0x4000, 1);
    assert_eq!(cart.read(0xa123), 0x00);
    cart.write(0x4000, 2);
    assert_eq!(cart.read(0xa123), 0x99);
}

#[test]
fn pixel_colors() {
    assert_eq!(Pixel { color_idx: 0, palette: 0xe4 }.color(), 0xff);
    assert_eq!(Pixel { color_idx: 1, palette: 0xe4 }.color(), 0xaa);
    assert_eq!(Pixel { color_idx: 2, palette: 0xe4 }.color(), 0x55);
    assert_eq!(Pixel { color_idx: 3, palette: 0xe4 }.color(), 0x00);
}

#[test]
fn render_white_while_lcd_off() {
    let mut ppu = Ppu::new();
    ppu.write(0xff47, 0xff);
    let frame = ppu.render();
    assert_eq!(frame.len(), 160 * 144 * 4);
    assert!(frame.iter().all(|&b| b == 0xff));
}

#[test]
fn background_tile_drawn() {
    let mut ppu = Ppu::new();
    // Tile 0, row 0: low plane 0xff, high plane 0x00 -> colour 1.
    for row in 0..8u16 {
        ppu.write(0x8000 + 2 * row, 0xff);
    }
    ppu.write(0xff47, 0xe4);
    ppu.write(0xff40, 0x91);
    for _ in 0..(114 * 154 + 10) {
        ppu.step();
    }
    // The first frame after the LCD comes on shows white.
    let first = ppu.render();
    assert_eq!(first[0], 0xff);
    for _ in 0..(114 * 154) {
        ppu.step();
    }
    let frame = ppu.render();
    assert_eq!(frame[0], 0xaa);
    assert_eq!(frame[3], 0xff);
}

#[test]
fn sprites_sorted_by_x() {
    let mut ppu = Ppu::new();
    // Three sprites on line 0 at X 50, 20, 20.
    let entries = [(16u8, 50u8), (16, 20), (16, 20)];
    for (i, (y, x)) in entries.iter().enumerate() {
        ppu.write_oam(4 * i as u8, *y);
        ppu.write_oam(4 * i as u8 + 1, *x);
        ppu.write_oam(4 * i as u8 + 2, i as u8);
    }
    ppu.write(0xff40, 0x80);
    for _ in 0..20 {
        ppu.step();
    }
    let xs: Vec<u8> = ppu.oam_sprites.iter().map(|s| s.x).collect();
    assert_eq!(xs, vec![20, 20, 50]);
    let tiles: Vec<u8> = ppu.oam_sprites.iter().map(|s| s.tile).collect();
    assert_eq!(tiles, vec![1, 2, 0]);
}

#[test]
fn sampler_cuts_block_to_375() {
    let mut s = Sampler::new();
    let mut out = None;
    for i in 0..8192u32 {
        let r = s.push_sample((1, i % 2), false);
        if i < 8191 {
            assert!(r.is_none());
        } else {
            out = r;
        }
    }
    let out = out.unwrap();
    assert_eq!(out.len(), 375);
    assert_eq!(out[0], (22, 11));
    assert_eq!(out[316], (22, 11));
    assert_eq!(out[317], (21, 10));
    assert_eq!(out[374].0, 21);
    assert!(s.sample_buffer.is_empty());
}

#[test]
fn sampler_holds_full_block_when_fast_forwarding() {
    let mut s = Sampler::new();
    s.limit_framerate = false;
    for _ in 0..8192 {
        assert!(s.push_sample((1, 1), false).is_none());
    }
    assert!(s.push_sample((5, 5), false).is_none());
    assert_eq!(s.sample_buffer.len(), 8192);
    let out = s.push_sample((5, 5), true).unwrap();
    assert_eq!(out[0], (22, 22));
}

#[test]
fn apu_mix_pans_and_scales() {
    let mut apu = Apu::new();
    apu.write(0xff26, 0x80);
    apu.write(0xff24, 0x07);
    apu.write(0xff25, 0x01);
    apu.write(0xff12, 0xf0);
    apu.write(0xff11, 0xc0);
    apu.write(0xff14, 0x80);
    let (l, r) = apu.mix();
    assert_eq!(l, 0);
    assert!(r == 0 || r == 15 * 8);
}

#[test]
fn divider_reset_clocks_tima_on_falling_edge() {
    let mut t = Timers::new();
    t.write_tac(0x05);
    // Advance until the selected DIV bit (bit 3) is set.
    while !t.result {
        t.increment();
    }
    let before = t.tima;
    t.reset_div();
    assert_eq!(t.div, 0);
    assert_eq!(t.tima, before + 1);
    assert!(!t.result);
}

#[test]
fn rtc_write_restarts_sub_second() {
    let mut rtc = Rtc::new();
    for _ in 0..100 {
        rtc.increment();
    }
    assert!(rtc.ticks != 0 || rtc.cycles != 0);
    rtc.write(0x09, 5);
    assert_eq!(rtc.ticks, 0);
    assert_eq!(rtc.cycles, 0);
    assert_eq!(rtc.internal_state.minutes, 5);
}
