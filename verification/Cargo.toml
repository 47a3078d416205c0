[package]
name = "moic_driver"
version = "0.1.0"
edition = "2021"
publish = false

[dependencies]
spin = "=0.9.9"
log = "=0.4.35"
riscv = "=0.10.1"
sbi-rt = "=0.0.3"
buddy_system_allocator = "=0.9.1"
array-init = "=2.1.0"
