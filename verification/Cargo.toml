[package]
name = "uefi_input2"
version = "0.1.0"
edition = "2021"
publish = false

[dependencies]
uefi = { version = "=0.36.1", features = ["alloc"] }
uefi-raw = "=0.13.0"
