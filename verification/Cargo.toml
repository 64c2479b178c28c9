[package]
name = "saten"
version = "0.1.0"
edition = "2021"
publish = false

[dependencies]
flate2 = "1"
encoding_rs = "0.8"
image = "*"
log = "0.4"
dirs = "*"
thiserror = "*"
