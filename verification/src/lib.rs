//! A 16-bit register and stack machine: its word model, instruction set,
//! execution engine, disassembler and stepping debugger.

pub mod command;
pub mod debugger;
pub mod engine;
pub mod fault;
pub mod listing;
pub mod opcode;
pub mod render;
pub mod state;
pub mod word;
