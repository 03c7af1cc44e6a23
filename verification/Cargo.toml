[package]
name = "fifo_ipc"
version = "0.1.0"
edition = "2021"
publish = false

[dependencies]
anyhow = "1"
libc = "0.2"
nix = { version = "*", features = ["fs"] }
serde = { version = "1", features = ["derive"] }
serde_json = "1"
