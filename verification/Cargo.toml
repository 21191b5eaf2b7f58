[package]
name = "caco3"
version = "0.1.0"
edition = "2021"
publish = false

[dependencies]
anyhow = "=1.0.104"
axum = { version = "=0.8.9", default-features = false, features = ["matched-path"] }
byte-unit = { version = "=5.2.6", features = ["serde"] }
bytemuck = { version = "=1.25.2", features = ["derive"] }
camino = "=1.2.6"
figment = "=0.10.19"
futures-core = "=0.3.34"
http = "=1.5.0"
libc = "=0.2.191"
nix = { version = "=0.31.3", features = ["term", "process", "fs"] }
pin-project = "=1.1.13"
serde = { version = "=1.0.229", features = ["derive"] }
serde_json = "=1.0.154"
thiserror = "=2.0.21"
time = { version = "=0.3.55", features = ["serde", "formatting", "parsing", "local-offset"] }
tokio = { version = "=1.54.1", features = ["process", "net", "io-util", "rt"] }
toml = "=1.1.8"
tower = "=0.5.3"
tracing = "=0.1.44"
tz-rs = "=0.7.3"

[dev-dependencies]
uuid = { version = "=1.29.0", features = ["v4"] }
