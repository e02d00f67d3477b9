[package]
name = "cherry_hal"
version = "0.1.0"
edition = "2021"
publish = false

[dependencies]
embedded-hal = { version = "=0.2.7", features = ["unproven"] }
nb = "=0.1.3"
riscv = "=0.16.1"
