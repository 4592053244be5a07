[package]
name = "eris-lib"
version = "0.1.0"
edition = "2021"
publish = false

[dependencies]
axum = "0.6"
bytes = "1"
ed25519-dalek = "1"
futures-util = "0.3"
hex = "0.4"
http = "0.2"
http-body = "0.4"
hyper = "0.14"
lambda_http = "0.8"
moka = { version = "0.11", features = ["future"] }
pin-project = "1"
rmp-serde = "1"
serde = { version = "1", features = ["derive"] }
serde_json = "1"
thiserror = "1"
tokio = { version = "1", features = ["rt", "sync", "time"] }
tower = { version = "0.4", features = ["retry", "util"] }
tower-http = { version = "0.4", features = ["add-extension"] }
tracing = "0.1"
twilight-http = { version = "0.15", default-features = false }
twilight-model = "0.15"
twilight-util = { version = "0.15", features = ["builder"] }
twilight-validate = "0.15"
