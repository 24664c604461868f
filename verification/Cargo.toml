[package]
name = "zed_embed"
version = "0.1.0"
edition = "2021"
publish = false

[dependencies]
anyhow = "1"
ash = "0.38"
futures = "0.3"
libc = "0.2"
log = "0.4"
nix = { version = "0.30", features = ["socket", "uio"] }
parking_lot = "0.12"
pollster = "0.4"
schemars = "1"
semver = "1"
serde = { version = "1", features = ["derive"] }
uuid = "1"
wgpu = "*"
