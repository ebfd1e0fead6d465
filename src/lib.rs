//! Typed access to the bit-fields of 64-bit ARM system registers.
//!
//! The library models a register's raw contents as an unsigned integer, a
//! field as a mask and a shift, and a field value as a right-aligned value
//! already masked to its field. Reading and writing a field are pure
//! functions on raw register contents, so that the same code serves a
//! hardware register and an in-memory stand-in for one.

pub mod register_type;
pub mod field;
pub mod register;
