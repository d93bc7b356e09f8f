[package]
name = "riscv_vplic"
version = "0.1.0"
edition = "2021"
publish = false

[dependencies]
axaddrspace = "=0.5.12"
axdevice_base = "=0.6.4"
axerrno = "=0.2.2"
axvisor_api = "=0.5.12"
riscv-h = "=0.4.11"
spin = "=0.12.3"
