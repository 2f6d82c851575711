[package]
name = "cpu_hal"
version = "0.1.0"
edition = "2021"
publish = false

[dependencies]
once = "=0.3.4"
raw-cpuid = "=11.6.0"
riscv = "=0.16.1"
x86_64 = { version = "=0.15.5", default-features = false, features = ["instructions"] }
