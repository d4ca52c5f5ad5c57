//! Transaction records for a canonical signing format: a permissive wire
//! shape, a strict canonical shape, and the validating conversion between them.

pub mod types;
pub mod convert;
pub mod ops;
