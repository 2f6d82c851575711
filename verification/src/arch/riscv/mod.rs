//! The RISC-V backend.

pub mod cpu;
