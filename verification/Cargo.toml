[package]
name = "rinha"
version = "0.1.0"
edition = "2021"
publish = false

[dependencies]
actix-web = { version = "4", default-features = false, features = ["macros"] }
anyhow = "1"
chrono = { version = "0.4", default-features = false, features = ["std", "serde"] }
config = { version = "0.13", default-features = false, features = ["toml"] }
http = "0.2"
opentelemetry = { version = "0.20", features = ["rt-tokio"] }
opentelemetry-otlp = { version = "0.13", default-features = false, features = ["trace", "http-proto", "reqwest-client"] }
opentelemetry-semantic-conventions = "0.12"
reqwest = { version = "0.11", default-features = false, features = ["rustls-tls"] }
serde = { version = "1", features = ["derive"] }
serde_json = "1"
sqlx = { version = "0.7", default-features = false, features = ["runtime-tokio", "postgres", "uuid", "chrono", "migrate"] }
thiserror = "1"
tracing = "0.1"
tracing-actix-web = "0.7"
tracing-log = { version = "0.1", features = ["env_logger"] }
tracing-opentelemetry = "0.21"
tracing-subscriber = { version = "0.3", features = ["env-filter"] }
uuid = { version = "1", features = ["serde"] }
