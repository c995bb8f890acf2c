//! Type-constraint resolution for the operands of polymorphic instructions.
//!
//! Every opcode carries a compact record that says which types its
//! controlling type variable ranges over and how the type of each result and
//! operand follows from it. [`resolve::resolve`] checks one instantiation of
//! an opcode against that record.
//!
//! - [`types`] and [`typeset`]: the value types and sets of them.
//! - [`opcode`] and [`format`]: the opcodes, their classes and their formats.
//! - [`constraints`]: the rule for one position and the record of an opcode.
//! - [`tables`]: the records, type sets and constraints of the instruction
//!   set, and the lookups into them.
//! - [`resolve`]: the check itself, with and without a controlling type
//!   given.
//! - [`free`]: the positions that the check leaves open.
//! - [`laws`]: what holds of every instantiation and its check.
//! - [`greeting`]: the text of the greeting that the guest module shows.

pub mod constraints;
pub mod format;
pub mod free;
pub mod greeting;
pub mod laws;
pub mod opcode;
pub mod resolve;
pub mod tables;
pub mod types;
pub mod typeset;
