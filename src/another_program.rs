//! A target program whose record holds a 32-byte id, an address and an amount, each in a
//! fixed-width slot after the common header.

pub mod error;
pub mod instruction;
pub mod state;
