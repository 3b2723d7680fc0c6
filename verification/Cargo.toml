[package]
name = "indicate"
version = "0.1.0"
edition = "2021"
publish = false

[dependencies]
cargo_metadata = "=0.15.4"
chrono = "=0.4.45"
cvss = "=2.2.0"
dirs = "=5.0.1"
git-url-parse = "=0.4.6"
lazy_static = "=1.5.1"
ron = "=0.8.1"
rustsec = "=0.27.0"
serde = { version = "=1.0.229", features = ["derive"] }
trustfall = "=0.4.0"
