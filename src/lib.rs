//! A single-slot owner of one value that can be transformed in place by a
//! function that consumes the value and hands back its replacement.
//!
//! The value type needs no `Clone`, no `Default` and no placeholder value.
mod cell;

pub use cell::Inplace;
