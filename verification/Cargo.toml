[package]
name = "vaccel_vsock"
version = "0.1.0"
edition = "2021"
publish = false

[dependencies]
libc = "0.2"
nix = { version = "*", default-features = false, features = ["socket"] }
ttrpc = "*"
protobuf = "*"
