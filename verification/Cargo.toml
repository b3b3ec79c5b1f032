[package]
name = "sprout"
version = "0.1.0"
edition = "2021"
publish = false

[dependencies]
anyhow = { version = "1", default-features = false }
log = "0.4"
spin = "*"
uefi = { version = "*", default-features = false, features = ["alloc"] }
uefi-raw = "*"
