//! Core of a classic handheld-console emulator: the register file, the
//! flags codec, the memory bus, the instruction decoder and the execution
//! engine, each with a verified contract. Rendering, terminal input and
//! file loading live outside this crate and only exchange plain values
//! with it.

pub mod bus;
pub mod cpu;
pub mod debugger;
pub mod display;
pub mod flags;
pub mod opcodes;
pub mod registers;
pub mod state;
pub mod words;
