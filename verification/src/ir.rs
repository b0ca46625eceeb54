//! Intermediate code: a program lowered to three-address instructions.

pub mod ir_generator;
pub mod tac;
