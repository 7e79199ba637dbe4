//! Code generation for a run-time assembler.
//!
//! An instruction is described as a list of encoding statements ([`fold::Stmt`]):
//! constants, values that the surrounding program computes, raw bytes, labels and
//! relocations. [`serialize::serialize`] folds the constant parts into byte blocks and
//! turns the result into method calls on the assembler, as a small syntax tree
//! ([`ast`]) that the caller splices into the program it generates.

pub mod ast;
pub mod builder;
pub mod context;
pub mod endian;
pub mod eval;
pub mod fold;
pub mod serialize;
pub mod size;
pub mod target;
