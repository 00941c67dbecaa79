[package]
name = "bouquineur"
version = "0.1.0"
edition = "2021"
publish = false

[dependencies]
ammonia = "=4.2.4"
anyhow = "=1.0.104"
axum = { version = "=0.7.9", features = ["multipart"] }
base64 = "=0.22.1"
bstr = "=1.13.1"
chrono = "=0.4.45"
diesel = { version = "=2.2.12", features = ["postgres", "uuid", "chrono"] }
diesel-async = { version = "=0.5.2", features = ["postgres", "deadpool"] }
diesel_migrations = "=2.2.0"
futures-util = "=0.3.34"
human-date-parser = "=0.1.2"
image = { version = "=0.25.10", default-features = false, features = ["jpeg", "png"] }
maud = { version = "=0.26.0", features = ["axum"] }
parse_datetime = "=0.6.0"
reqwest = "=0.12.28"
roxmltree = "=0.20.0"
serde = { version = "=1.0.229", features = ["derive"] }
serde_json = "=1.0.154"
serde_path_to_error = "=0.1.20"
tempfile = "=3.27.0"
thiserror = "=1.0.69"
tokio = { version = "=1.54.1", features = ["full"] }
tokio-util = { version = "=0.7.20", features = ["io"] }
toml = "=0.8.23"
tracing = "=0.1.44"
tracing-subscriber = "=0.3.23"
uuid = { version = "=1.29.0", features = ["serde"] }
