use rgb::apu::Apu;
use rgb::bus::cartridge::mbc1::MBC1;
use rgb::bus::cartridge::{Cartridge, CartridgeError, SaveError};
use rgb::bus::joypad::{Joypad, JoypadButton};
use rgb::bus::timers::Timers;
use rgb::bus::MemoryBus;
use rgb::cpu::alu::{adc8, daa8, half_overflowing_add16, half_overflowing_add8, half_overflowing_sub8};
use rgb::cpu::instruction::{decode, Instruction, LdType, R8};
use rgb::cpu::registers::{RegWrite, Reg16, Registers};
use rgb::cpu::{Cpu, CpuError};
use rgb::ppu::Ppu;

/// A ROM image of `banks` banks whose every byte holds its bank number.
fn banked_rom(banks: usize, mapper: u8, rom_code: u8, ram_code: u8) -> Vec<u8> {
    let mut rom = Vec::with_capacity(banks * 0x4000);
    for b in 0..banks {
        for _ in 0..0x4000 {
            rom.push(b as u8);
        }
    }
    rom[0x147] = mapper;
    rom[0x148] = rom_code;
    rom[0x149] = ram_code;
    rom
}

#[test]
fn audio_register_masked_while_disabled() {
    let mut apu = Apu::new();
    apu.write(0xff26, 0x00);
    apu.write(0xff11, 0x80);
    assert_eq!(apu.read(0xff11), 0x3f);
}

#[test]
fn audio_register_reads_back_masked_when_enabled() {
    let mut apu = Apu::new();
    apu.write(0xff26, 0x80);
    apu.write(0xff11, 0x80);
    assert_eq!(apu.read(0xff11), 0xbf);
    apu.write(0xff10, 0x00);
    assert_eq!(apu.read(0xff10), 0x80);
    apu.write(0xff12, 0xf3);
    assert_eq!(apu.read(0xff12), 0xf3);
    apu.write(0xff1c, 0x40);
    assert_eq!(apu.read(0xff1c), 0xdf);
    apu.write(0xff25, 0xa5);
    assert_eq!(apu.read(0xff25), 0xa5);
    apu.write(0xff24, 0x77);
    assert_eq!(apu.read(0xff24), 0x77);
}

#[test]
fn audio_power_off_resets_registers() {
    let mut apu = Apu::new();
    apu.write(0xff26, 0x80);
    apu.write(0xff12, 0xf0);
    apu.write(0xff25, 0xff);
    apu.write(0xff30, 0x12);
    apu.write(0xff26, 0x00);
    assert_eq!(apu.read(0xff12), 0x00);
    assert_eq!(apu.read(0xff25), 0x00);
    assert_eq!(apu.read(0xff10), 0x80);
    assert_eq!(apu.read(0xff14), 0xbf);
    assert_eq!(apu.read(0xff30), 0x12);
    assert_eq!(apu.read(0xff26), 0x70);
}

#[test]
fn audio_trigger_sets_channel_status() {
    let mut apu = Apu::new();
    apu.write(0xff26, 0x80);
    apu.write(0xff12, 0xf0);
    apu.write(0xff14, 0x80);
    assert_eq!(apu.read(0xff26), 0xf1);
    apu.write(0xff12, 0x00);
    assert_eq!(apu.read(0xff26), 0xf0);
}

#[test]
fn mbc1_bank_zero_selects_one() {
    let rom = banked_rom(16, 0x01, 3, 0);
    let mut cart = Cartridge::new(rom).unwrap();
    cart.write(0x2000, 0x00);
    assert_eq!(cart.read(0x4000), 1);
    cart.write(0x2000, 0x05);
    assert_eq!(cart.read(0x4000), 5);
    assert_eq!(cart.read(0x7fff), 5);
    cart.write(0x2000, 0x13);
    assert_eq!(cart.read(0x4000), 0x13 % 16);
}

#[test]
fn mbc1_masked_zero_selects_one() {
    let rom = banked_rom(32, 0x01, 4, 0);
    let mut cart = Cartridge::new(rom).unwrap();
    cart.write(0x2000, 0x20);
    assert_eq!(cart.read(0x4000), 1);
}

#[test]
fn mbc1_mode_one_maps_low_area() {
    let rom = banked_rom(64, 0x01, 5, 0);
    let mut cart = Cartridge::new(rom).unwrap();
    cart.write(0x4000, 0x01);
    cart.write(0x2000, 0x00);
    assert_eq!(cart.read(0x0000), 0);
    cart.write(0x6000, 0x01);
    assert_eq!(cart.read(0x0000), 32);
    assert_eq!(cart.read(0x4000), 33);
}

#[test]
fn mbc1_struct_banks() {
    let mut m = MBC1::new(banked_rom(4, 0x01, 1, 0), 4);
    m.write(0x2000, 3);
    assert_eq!(m.read(0x4000), 3);
    m.write(0x2000, 6);
    assert_eq!(m.read(0x4000), 2);
}

#[test]
fn cartridge_header_errors() {
    assert!(matches!(Cartridge::new(vec![0; 0x100]), Err(CartridgeError::TooShort)));
    let rom = banked_rom(2, 0x04, 0, 0);
    assert!(matches!(Cartridge::new(rom), Err(CartridgeError::UnknownMapper(0x04))));
    let rom = banked_rom(2, 0x01, 9, 0);
    assert!(matches!(Cartridge::new(rom), Err(CartridgeError::InvalidRomSize(9))));
    let rom = banked_rom(2, 0x01, 0, 6);
    assert!(matches!(Cartridge::new(rom), Err(CartridgeError::InvalidRamSize(6))));
    let rom = banked_rom(2, 0x01, 1, 0);
    assert!(matches!(Cartridge::new(rom), Err(CartridgeError::TooShort)));
}

#[test]
fn external_ram_round_trip() {
    let rom = banked_rom(4, 0x03, 1, 2);
    let mut cart = Cartridge::new(rom.clone()).unwrap();
    cart.write(0x0000, 0x0a);
    cart.write(0xa000, 0x42);
    cart.write(0xbfff, 0x17);
    let save = cart.save_external_ram();
    assert_eq!(save.len(), 8192);
    let mut other = Cartridge::new(rom).unwrap();
    other.load_external_ram(&save).unwrap();
    assert_eq!(other.save_external_ram(), save);
    other.write(0x0000, 0x0a);
    assert_eq!(other.read(0xa000), 0x42);
    assert_eq!(other.read(0xbfff), 0x17);
    assert!(matches!(other.load_external_ram(&save[..100]), Err(SaveError::TooShort)));
}

#[test]
fn rtc_save_round_trip() {
    let rom = banked_rom(4, 0x10, 1, 2);
    let mut cart = Cartridge::new(rom.clone()).unwrap();
    cart.write(0x0000, 0x0a);
    cart.write(0x4000, 0x08);
    cart.write(0xa000, 0x2a);
    cart.write(0x4000, 0x0b);
    cart.write(0xa000, 0x34);
    let save = cart.save_external_ram();
    assert_eq!(save.len(), 8192 + 10);
    assert_eq!(&save[8192..8197], &[0x2a, 0, 0, 0x34, 0]);
    let mut other = Cartridge::new(rom).unwrap();
    other.load_external_ram(&save).unwrap();
    assert_eq!(other.save_external_ram(), save);
}

#[test]
fn mbc2_ram_high_nibble_reads_one() {
    let rom = banked_rom(4, 0x05, 1, 0);
    let mut cart = Cartridge::new(rom).unwrap();
    cart.write(0x0000, 0x0a);
    cart.write(0xa000, 0x03);
    assert_eq!(cart.read(0xa000), 0xf3);
    assert_eq!(cart.read(0xa200), 0xf3);
    cart.write(0x0100, 0x02);
    assert_eq!(cart.read(0x4000), 2);
}

#[test]
fn mbc5_nine_bit_bank() {
    let rom = banked_rom(4, 0x19, 1, 0);
    let mut cart = Cartridge::new(rom).unwrap();
    cart.write(0x2000, 0x00);
    assert_eq!(cart.read(0x4000), 0);
    cart.write(0x2000, 0x03);
    assert_eq!(cart.read(0x4000), 3);
    cart.write(0x3000, 0x01);
    assert_eq!(cart.read(0x4000), 3);
}

#[test]
fn half_carry_flags() {
    assert_eq!(half_overflowing_add8(0x0f, 0x01), (0x10, true, false));
    assert_eq!(half_overflowing_add8(0xf0, 0x10), (0x00, false, true));
    assert_eq!(half_overflowing_sub8(0x10, 0x01), (0x0f, true, false));
    assert_eq!(half_overflowing_sub8(0x00, 0x01), (0xff, true, true));
    assert_eq!(half_overflowing_add16(0x0fff, 0x0001), (0x1000, true, false));
    assert_eq!(adc8(0x0e, 0x01, true), (0x10, true, false));
    assert_eq!(daa8(0x0f, false, false, false), (0x15, false));
    assert_eq!(daa8(0x9a, false, false, false), (0x00, true));
}

#[test]
fn register_pairs() {
    let mut r = Registers::new();
    r.write(RegWrite::AF(0x12ff));
    assert_eq!(r.reg16(Reg16::AF), 0x12f0);
    r.write(RegWrite::HL(0xbeef));
    assert_eq!(r.reg16(Reg16::HL), 0xbeef);
    assert_eq!(r.h, 0xbe);
    assert_eq!(r.l, 0xef);
}

#[test]
fn decode_lengths_and_illegal() {
    assert!(decode(0xd3, 0, 0).is_none());
    assert!(decode(0xfd, 0, 0).is_none());
    assert!(matches!(decode(0x41, 0, 0), Some(Instruction::Ld(LdType::R8(R8::B, R8::C)))));
    assert_eq!(decode(0xc3, 0x34, 0x12).unwrap().length(), 3);
    assert!(matches!(decode(0xc3, 0x34, 0x12), Some(Instruction::JpAlways(0x1234))));
    assert_eq!(decode(0xcb, 0x7c, 0).unwrap().length(), 2);
    assert_eq!(decode(0x00, 0, 0).unwrap().length(), 1);
}

#[test]
fn divider_write_clears() {
    let cart = Cartridge::new(banked_rom(2, 0x00, 0, 0)).unwrap();
    let mut bus = MemoryBus::new(None, cart);
    for _ in 0..1000 {
        bus.tick();
    }
    assert_ne!(bus.read(0xff04), 0);
    bus.write(0xff04, 0x55);
    assert_eq!(bus.read(0xff04), 0);
}

#[test]
fn interrupt_flag_high_bits() {
    let cart = Cartridge::new(banked_rom(2, 0x00, 0, 0)).unwrap();
    let mut bus = MemoryBus::new(None, cart);
    bus.write(0xff0f, 0x00);
    assert_eq!(bus.read(0xff0f), 0xe0);
    bus.write(0xff0f, 0x05);
    assert_eq!(bus.read(0xff0f), 0xe5);
    bus.write(0xff07, 0x05);
    assert_eq!(bus.read(0xff07), 0xfd);
}

#[test]
fn timer_overflow_reloads_next_cycle() {
    let mut t = Timers::new();
    t.tac = 0x05;
    t.tima = 0xff;
    t.tma = 0x42;
    let mut fired = false;
    for _ in 0..8 {
        let e = t.increment();
        if t.overflow {
            assert_eq!(t.tima, 0);
            let e2 = t.increment();
            assert!(e2.interrupt);
            assert_eq!(t.tima, 0x42);
            fired = true;
            break;
        }
        assert!(!e.interrupt);
    }
    assert!(fired);
}

#[test]
fn timer_write_cancels_reload() {
    let mut t = Timers::new();
    t.tac = 0x05;
    t.tima = 0xff;
    t.tma = 0x42;
    while !t.overflow {
        t.increment();
    }
    t.write_tima(0x10);
    let e = t.increment();
    assert!(!e.interrupt);
    assert_eq!(t.tima, 0x10);
}

#[test]
fn joypad_press_requests_interrupt() {
    let mut j = Joypad::new();
    j.write(0x20);
    assert_eq!(j.read() & 0x0f, 0x0f);
    j.update_button(JoypadButton::Down, true);
    assert_eq!(j.read(), 0xc0 | 0x20 | 0x07);
    assert!(j.poll());
    assert!(!j.poll());
    j.update_button(JoypadButton::A, true);
    assert!(!j.poll());
}

#[test]
fn stat_low_bits_reflect_state() {
    let mut ppu = Ppu::new();
    ppu.write(0xff45, 0x00);
    assert_eq!(ppu.read(0xff41) & 0x07, 0x04);
    ppu.write(0xff40, 0x80);
    ppu.step();
    assert_eq!(ppu.read(0xff41) & 0x07, 0x04 | 0x02);
    for _ in 0..20 {
        ppu.step();
    }
    assert_eq!(ppu.read(0xff41) & 0x03, 0x03);
    ppu.write(0xff41, 0xff);
    assert_eq!(ppu.read(0xff41), 0xff);
}

#[test]
fn cpu_runs_alu_program() {
    let mut rom = banked_rom(2, 0x00, 0, 0);
    // LD A,0x0F ; ADD A,0x01 ; HALT
    rom[0x100] = 0x3e;
    rom[0x101] = 0x0f;
    rom[0x102] = 0xc6;
    rom[0x103] = 0x01;
    rom[0x104] = 0x76;
    let cart = Cartridge::new(rom).unwrap();
    let mut cpu = Cpu::new(None, cart).unwrap();
    assert_eq!(cpu.step().unwrap(), 2);
    assert_eq!(cpu.registers.pc, 0x102);
    assert_eq!(cpu.step().unwrap(), 2);
    assert_eq!(cpu.registers.pc, 0x104);
    assert_eq!(cpu.registers.a, 0x10);
    assert!(cpu.registers.flags.h);
    assert!(!cpu.registers.flags.z);
    cpu.step().unwrap();
    assert!(cpu.halted);
}

#[test]
fn cpu_illegal_opcode_faults() {
    let mut rom = banked_rom(2, 0x00, 0, 0);
    rom[0x100] = 0xdd;
    let cart = Cartridge::new(rom).unwrap();
    let mut cpu = Cpu::new(None, cart).unwrap();
    assert_eq!(cpu.step(), Err(CpuError::IllegalOpcode { pc: 0x100, opcode: 0xdd }));
}

#[test]
fn cpu_boot_rom_size() {
    let cart = Cartridge::new(banked_rom(2, 0x00, 0, 0)).unwrap();
    assert!(matches!(Cpu::new(Some(vec![0; 10]), cart), Err(CpuError::BootRomSize(10))));
}
