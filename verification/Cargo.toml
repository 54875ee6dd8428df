[package]
name = "barony-mod-manager"
version = "0.3.2"
edition = "2021"
publish = false

[dependencies]
async-std = "=1.13.2"
chrono = "=0.4.45"
dirs = "=3.0.2"
iced_native = "=0.4.0"
image = { version = "=0.23.14", default-features = false, features = ["png", "jpeg", "gif"] }
reqwest = { version = "=0.11.27", features = ["json"] }
serde = { version = "=1.0.229", features = ["derive"] }
serde_json = "=1.0.154"
serde_with = { version = "=1.14.0", features = ["chrono"] }
zip = { version = "=0.6.6", default-features = false, features = ["deflate"] }

[dev-dependencies]
tempfile = "=3.27.0"
