[package]
name = "chair"
version = "0.1.0"
edition = "2021"
publish = false

[dependencies]
anyhow = "=1.0.104"
chrono = { version = "=0.4.45", features = ["serde"] }
color-eyre = "=0.6.5"
dotenvy = "=0.15.7"
itertools = "=0.12.1"
rand = "=0.8.8"
serde = { version = "=1.0.229", features = ["derive"] }
sled = "=0.34.7"
tokio = { version = "=1.54.1", features = ["macros", "rt-multi-thread", "sync", "time"] }
tracing = "=0.1.44"
tracing-subscriber = "=0.3.23"
twilight-cache-inmemory = "=0.15.4"
twilight-gateway = "=0.15.4"
twilight-http = "=0.15.4"
twilight-interactions = "=0.15.2"
twilight-model = "=0.15.4"
twilight-util = { version = "=0.15.4", features = ["builder", "snowflake"] }
twilight-validate = "=0.15.3"
uuid = { version = "=1.29.0", features = ["v4", "serde"] }

[dev-dependencies]
regex = "=1.13.1"
