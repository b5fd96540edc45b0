//! Symbolic expressions over booleans, bit-vectors, floating-point numbers
//! and strings.

pub mod ast;
mod bigint;
pub mod bitvec;
pub mod bv;
pub mod context;
pub mod laws;
pub mod op_laws;
pub mod values;
