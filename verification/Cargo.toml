[package]
name = "uefi"
version = "0.1.0"
edition = "2021"
publish = false

[dependencies]
ucs2 = "=0.1.0"
log = "=0.4.35"
arrayvec = { version = "0.7", default-features = false }
