//! The x86_64 backend.

pub mod cpu;
