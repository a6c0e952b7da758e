[package]
name = "pg_connector"
version = "0.1.0"
edition = "2021"
publish = false

[dependencies]
url = "2"
percent-encoding = "2"
tokio-postgres = "0.7"
native-tls = "0.2"
postgres-native-tls = "0.5"
tokio = { version = "1", features = ["rt", "time"] }
futures = "0.3"
async-trait = "0.1"
metrics = "0.20"
tracing = "0.1"
