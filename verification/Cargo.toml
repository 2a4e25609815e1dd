[package]
name = "federation_core"
version = "0.1.0"
edition = "2021"
publish = false

[dependencies]
url = { version = "=2.5.8", features = ["serde"] }
activitystreams-kinds = "=0.2.1"
activitypub_federation = "=0.3.5"
chrono = { version = "=0.4.45", features = ["serde"] }
uuid = { version = "=1.29.0", features = ["v4"] }
anyhow = "=1.0.104"
serde = { version = "=1.0.229", features = ["derive"] }
serde_json = "=1.0.154"
reqwest = { version = "=0.11.27", features = ["json"] }
reqwest-middleware = "=0.2.5"
reqwest-retry = "=0.2.3"
reqwest-tracing = "=0.4.8"
tracing = "=0.1.44"
tracing-error = "=0.2.1"
tracing-log = "=0.1.4"
tracing-subscriber = "=0.3.23"
tracing-actix-web = "=0.6.2"
actix-web = "=4.18.1"
doku = "*"
