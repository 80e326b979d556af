[package]
name = "connector_arrow"
version = "0.1.0"
edition = "2021"
publish = false

[dependencies]
arrow = "=58.4.0"
chrono = "=0.4.45"
duckdb = "=1.10506.0"
gcp-bigquery-client = "=0.28.0"
serde_json = "=1.0.151"
sqlparser = "=0.63.0"
tokio = { version = "=1.53.2", features = ["rt-multi-thread"] }
url = "=2.5.8"
