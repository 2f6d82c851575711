//! One backend per architecture.

pub mod aarch64;
pub mod riscv;
pub mod x86_64;
