[package]
name = "order_ingest"
version = "0.1.0"
edition = "2021"
publish = false

[dependencies]
axum = "*"
tokio = { version = "*", features = ["rt-multi-thread", "macros", "net", "sync"] }
sqlx = { version = "*", default-features = false, features = ["runtime-tokio", "postgres"] }
dotenv = "*"
log = "*"
log4rs = "*"

[dev-dependencies]
serde_json = "*"
time = { version = "*", features = ["parsing"] }
