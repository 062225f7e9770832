[package]
name = "raw_socket"
version = "0.1.0"
edition = "2021"
publish = false

[dependencies]
nix = "0.23"
socket2 = { version = "0.4", features = ["all"] }
