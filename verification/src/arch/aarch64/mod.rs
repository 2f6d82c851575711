//! The ARM64 backend.

pub mod driver;
