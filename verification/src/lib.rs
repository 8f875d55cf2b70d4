//! A cycle-stepped emulator core for the first monochrome handheld:
//! CPU, memory map, pixel pipeline, sound unit and cartridge mappers.

pub mod error;
pub mod gameboy;
