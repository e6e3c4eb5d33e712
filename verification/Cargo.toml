[package]
name = "run_sh"
version = "0.1.0"
edition = "2021"
publish = false

[dependencies]
anyhow = "=1.0.104"
docker-api = "=0.14.0"
dotenvy = "=0.15.7"
envy = "=0.4.2"
futures = "=0.3.34"
libsystemd = "=0.7.2"
rand = "=0.8.8"
regex = "=1.13.1"
serde = { version = "=1.0.229", features = ["derive"] }
sqlx = { version = "=0.8.6", default-features = false, features = ["runtime-tokio", "postgres", "migrate"] }
thiserror = "=1.0.69"
tokio = { version = "=1.54.1", features = ["full"] }
tokio-util = { version = "=0.7.20", features = ["codec"] }
tracing = "=0.1.44"
tracing-subscriber = { version = "=0.3.23", features = ["env-filter"] }
twilight-gateway = "=0.15.4"
twilight-http = "=0.15.4"
twilight-model = "=0.15.4"
vesper = "=0.13.0"
