//! A 16-bit register machine: memory bus with a memory-mapped keyboard,
//! register file, instruction decoder, execution engine and trap routines.

pub mod decoder;
pub mod engine;
pub mod image;
pub mod laws;
pub mod memory;
pub mod registers;
pub mod terminal;
pub mod trap;
