[package]
name = "buildkit"
version = "0.1.0"
edition = "2021"
publish = false

[dependencies]
camino = "1"
cargo_metadata = "0.18"
pkg-config = "0.3"
serde_json = "1"
thiserror = "1"
vcpkg = "0.2"
