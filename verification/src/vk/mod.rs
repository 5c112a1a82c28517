//! The driver's vocabulary as plain values: handles, enumerations, structures.

pub mod enums;
pub mod implementations;
pub mod types;
