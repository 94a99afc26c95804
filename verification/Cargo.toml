[package]
name = "status_channel"
version = "0.1.0"
edition = "2021"
publish = false

[dependencies]
anyhow = "*"
nix = { version = "*", features = ["mman", "fs"] }
tokio = { version = "*", features = ["macros", "rt-multi-thread", "signal", "time"] }
