[package]
name = "dark_pattern_blocker"
version = "0.1.0"
edition = "2021"
publish = false

[dependencies]
regex = "1"
time-hms = "*"
tokio = { version = "1", features = ["full"] }
tokio-util = { version = "0.7", features = ["codec"] }
futures = "0.3"
bytes = "1"
serde = { version = "1", features = ["derive"] }
serde_json = "1"
rmp-serde = "1"
rusqlite = { version = "*", features = ["bundled"] }
thiserror = "2"
uuid = { version = "1", features = ["v4"] }
chrono = "0.4"
nix = { version = "*", features = ["signal"] }
dirs = "*"
toml = "*"
clap = { version = "4", features = ["derive"] }
anyhow = "1"

[dev-dependencies]
tempfile = "3"
