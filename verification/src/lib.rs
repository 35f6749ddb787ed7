//! Core of a Game Boy (DMG) emulator: a cartridge-header parser, the 16-bit
//! address-space router with MBC1 bank switching, and a fetch-decode-execute
//! engine for the Sharp LR35902 CPU, with machine-checked contracts for the
//! instruction semantics, the flag rules, and the memory map.

pub mod arithmetic;
pub mod bits;
pub mod cartridgeheader;
pub mod checks;
pub mod cpu;
pub mod instructions;
pub mod jump;
pub mod laws;
pub mod load;
pub mod memory;
pub mod shifting;
pub mod stack;
