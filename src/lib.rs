//! Core of an emulator for an 8-bit monochrome handheld console: the
//! LR35902 processor, the memory bus, the picture and audio units, the timers
//! and the cartridge mappers, each with its behaviour stated as contracts.
use vstd::prelude::*;

pub mod apu;
pub mod bits;
pub mod bus;
pub mod cpu;
pub mod hotkeys;
pub mod ppu;

verus! {

} // verus!
