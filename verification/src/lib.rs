//! CPU-control layer of a kernel, for x86_64, RISC-V and ARM64.
//!
//! Every operation of the layer is split in two. This crate holds the half
//! that decides: which port, register or firmware call an operation uses and
//! with which value, and whether a core may still be brought up. The half
//! that touches the hardware performs what these functions return.

pub mod arch;
pub mod init_state;
