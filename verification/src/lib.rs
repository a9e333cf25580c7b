//! A virtual machine for the CHIP-8 instruction set.

pub mod emu;
pub mod keymap;
