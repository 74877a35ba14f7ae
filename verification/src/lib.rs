//! Cycle-accurate emulation of the NES 2A03 CPU core: a MOS 6502 without
//! decimal mode, driven one external tick at a time.
//!
//! The engine retires at most one instruction per tick and is verified
//! against a complete specification of the machine: [`step::spec_step`]
//! pins down fetch, decode, addressing, operation semantics, flag
//! arithmetic, cycle accounting (page-cross and branch penalties included),
//! the trace log, and the interrupt sequencer, and [`cpu::CPU::cycle`] is
//! proved to follow it exactly.
//!
//! - [`status`]: the flag unit over the status byte P.
//! - [`decode`]: the 256-entry opcode table.
//! - [`memory`]: the bus map with RAM and ROM mirroring.
//! - [`ppu_reg`]: the memory-mapped PPU register file.
//! - [`step`]: the ghost machine state and the step specification.
//! - [`cpu`]: the executable engine.
//! - [`trace`]: the `nestest`-style trace-line formatter.
//! - [`laws`]: round-trip and framing laws proved over the specification.
//! - [`rom_reader`]: iNES image decoding.

pub mod arith;
pub mod cpu;
pub mod decode;
pub mod laws;
pub mod memory;
pub mod ppu_reg;
pub mod rom_reader;
pub mod status;
pub mod step;
pub mod trace;
