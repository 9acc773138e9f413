[package]
name = "rpg_server"
version = "0.1.0"
edition = "2021"
publish = false

[dependencies]
rand = "=0.10.3"
uuid = { version = "=1.29.0", features = ["v7"] }
bcrypt = "=0.17.1"
serde = { version = "=1.0.229", features = ["derive"] }
serde_json = "=1.0.154"
axum = "=0.7.9"
tokio = { version = "=1.54.1", features = ["full"] }
tokio-util = "=0.7.20"
tokio-stream = { version = "=0.1.19", features = ["sync"] }
futures = "=0.3.34"
tower-http = { version = "=0.6.11", features = ["cors"] }
tracing = "=0.1.44"
tracing-subscriber = { version = "=0.3.23", features = ["env-filter"] }
dotenvy = "=0.15.7"
anyhow = "=1.0.104"
thiserror = "=2.0.21"
async-trait = "=0.1.92"
mongodb = "3"
