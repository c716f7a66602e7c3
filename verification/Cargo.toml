[package]
name = "nix_doctor"
version = "0.1.0"
edition = "2021"
publish = false

[dependencies]
nix-editor = "*"
anyhow = "1"
colored = "*"
