[package]
name = "ruche"
version = "0.1.0"
edition = "2021"
publish = false

[dependencies]
anyhow = "=1.0.104"
axum = "=0.8.9"
bollard = "=0.21.1"
futures-util = "=0.3.34"
nix = { version = "=0.31.3", features = ["user"] }
polodb_core = "=4.4.2"
reqwest = { version = "=0.13.5", default-features = false, features = ["json"] }
serde = { version = "=1.0.229", features = ["derive"] }
serde_json = "=1.0.151"
tokio = { version = "=1.53.2", features = ["full"] }
toml = "=1.1.6"
tower = { version = "=0.5.3", features = ["util", "timeout"] }
tower-http = { version = "=0.7.1", features = ["trace", "timeout"] }
tracing = "=0.1.44"
tracing-subscriber = "=0.3.23"
