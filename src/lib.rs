//! An emulator core for the CPU of the DMG handheld console: register pairs
//! with their BCD encoding, addressing modes, and a fetch-decode-execute engine
//! over a flat 16-bit address space; plus the decoding of tile data.
pub mod dmg_cpu;
pub mod register;
pub mod tile;
