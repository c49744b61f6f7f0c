[package]
name = "nvtt_rs"
version = "0.1.0"
edition = "2021"
publish = false

[dependencies]
cfg-if = "0.1"
image = { version = "0.23", default-features = false }
libc = "0.2"
log = "0.4"
maybe-owned = "0.3"
safe-transmute = "0.11"
