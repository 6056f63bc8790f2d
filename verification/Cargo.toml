[package]
name = "lattice"
version = "0.1.0"
edition = "2021"
publish = false

[dependencies]
anyhow = "=1.0.104"
async-graphql = "7"
async-graphql-warp = "7"
base64 = "=0.22.1"
bson = "=2.15.0"
cache_control = "=0.2.0"
chrono = "=0.4.45"
futures = "=0.3.34"
jsonwebtoken = "=9.3.1"
mongodb = "=3.9.1"
reqwest = { version = "=0.12.28", default-features = false, features = ["json", "rustls-tls"] }
serde = { version = "=1.0.229", features = ["derive"] }
serde_json = "=1.0.154"
tokio = { version = "=1.54.1", features = ["macros", "rt-multi-thread", "sync"] }
tracing = "0.1"
tracing-subscriber = "0.3"
warp = "0.3"
