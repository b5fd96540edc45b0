//! Expressions: operations and the nodes that hold them.

pub mod hash;
pub mod name;
pub mod node;
pub mod op;
pub mod typed;
