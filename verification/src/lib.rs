//! A small virtual machine for a tape language: a tokenizer that turns
//! source bytes into instructions, an engine that runs them on a growable
//! byte tape, and an emitter for the fixed header of an executable image.

pub mod elf;
pub mod exec_gen;
pub mod interpreter;
pub mod parser;
