//! The processor core of a cycle-stepped emulator of an 8-bit handheld
//! console: registers, bus, operands, instructions, decoder and interrupt
//! dispatch, advanced one machine cycle (four clock ticks) at a time.
//!
//! The host calls [`cpu::Cpu::emulate_cycle`] once per machine cycle and
//! hands it the bus, [`peripherals::Peripherals`]. Every routine of the
//! processor comes with a function that says what one call of it does to
//! the processor and the bus: `cpu::tick_model` for a whole machine cycle,
//! `decoder::decode_model` for the opcode under way, and one function per
//! instruction in `instruction`.
//!
//! What follows from those is proved in four modules:
//! - `preserved`: what every machine cycle keeps;
//! - `effects`: what each instruction does from start to end;
//! - `timing`: how many machine cycles each instruction takes;
//! - `laws`: what one instruction undoes of another.

pub mod alu;
pub mod bits;
pub mod bootrom;
pub mod cartridge;
pub mod cpu;
pub mod decoder;
pub mod effects;
pub mod gameboy;
pub mod hram;
pub mod instruction;
pub mod interrupts;
pub mod laws;
pub mod operand;
pub mod peripherals;
pub mod ppu;
pub mod preserved;
pub mod register;
pub mod run;
pub mod timing;
pub mod wram;
