//! An interpreter core for the Intel 8080 instruction set.
//!
//! The processor is modelled twice. [`machine`] holds the mathematical model: the
//! state as plain values and every instruction as a function from state to state.
//! [`cpu`] holds the interpreter that runs on [`state::State8080`]; each of its
//! functions is proved to compute what the model says. [`laws`] states properties
//! of the instruction set and proves them from the model.
//!
//! A host creates a [`state::State8080`], loads a program, and calls
//! [`cpu::emulate`] once for each instruction or [`cpu::run_until_halt`] for a
//! batch of them, reading the registers and flags in between.

pub mod alu;
pub mod cpu;
pub mod flags;
pub mod hexdump;
pub mod instruction;
pub mod laws;
pub mod machine;
pub mod memory;
pub mod state;
pub mod text;
