//! Core of a cycle-stepped NES emulator: address decoding, memory blocks,
//! the 6502 register file and interrupt/DMA sequencers, the picture
//! processing unit and its dot schedule, the APU channels and mixer,
//! controller ports, cartridge parsing and the cartridge mapper boards.
use vstd::prelude::*;

pub mod apu;
pub mod bits;
pub mod bus;
pub mod cartridge;
pub mod channel;
pub mod cpu;
pub mod debug;
pub mod input;
pub mod mapper;
pub mod memory;
pub mod ppu;
pub mod ppu_step;
pub mod region;
pub mod ring_buf;
pub mod run_until;

verus! {

} // verus!
