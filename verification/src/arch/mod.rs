//! Architecture-specific records and drivers.

pub mod x86;
