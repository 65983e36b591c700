[package]
name = "storeman-core"
version = "0.1.0"
edition = "2021"
publish = false

[dependencies]
argon2 = "=0.5.3"
chrono = { version = "=0.4.45", default-features = false, features = ["clock", "std"] }
csv = "=1.3.1"
hex = "=0.4.3"
rand = "=0.8.5"
rusqlite = { version = "=0.31.0", features = ["bundled"] }
serde = { version = "1", features = ["derive"] }
serde_json = "1"
sha2 = "=0.10.9"
thiserror = "=1.0.69"
uuid = { version = "1", features = ["v4"] }
