//! A Fibonacci-style addition chain laid out as a row-based constraint
//! system: column and gate declaration, witness assignment with copy
//! constraints, and the binding of the final sum to a public instance.

pub mod field;
pub mod layout;
pub mod pipeline;
pub mod satisfaction;
pub mod synthesis;
pub mod theorems;
