[package]
name = "peleka"
version = "0.1.0"
edition = "2021"
publish = false

[dependencies]
bollard = "*"
nonempty = "*"
urlencoding = "*"
chrono = "*"
gethostname = "*"
serde = { version = "1", features = ["derive"] }
serde_yaml = "*"
serde_json = "1"
humantime-serde = "*"
clap = { version = "4", features = ["derive"] }
tokio = { version = "1", features = ["full"] }
tracing = "*"
tracing-subscriber = { version = "*", features = ["env-filter"] }
russh = "*"
futures = "*"
hyper = { version = "1", features = ["client", "http1"] }
hyper-util = { version = "*", features = ["tokio"] }
http-body-util = "*"
bytes = "*"
async-trait = "*"
thiserror = "*"
snafu = "*"
parking_lot = "*"
docker-api = "*"
podman-api = "*"
