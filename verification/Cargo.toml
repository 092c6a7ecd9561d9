[package]
name = "rabbit"
version = "0.1.0"
edition = "2021"
publish = false

[dependencies]
semver = "1"
sha2 = "0.10"
chrono = { version = "0.4", default-features = false, features = ["clock", "std"] }
image = { version = "0.25", default-features = false, features = ["ico"] }
serde = { version = "1", features = ["derive"] }
serde_json = "1"
ureq = "2"
dirs = "5"
thiserror = "1"
anyhow = "1"
libc = "0.2"
