[package]
name = "poor_jimmy"
version = "0.1.0"
edition = "2021"
publish = false

[dependencies]
serde_json = "1"
serde = "1"
serenity = { version = "0.12", default-features = false, features = ["builder", "cache", "client", "gateway", "http", "model", "rustls_backend", "voice", "utils"] }
songbird = { version = "0.4", default-features = false, features = ["serenity", "driver", "gateway", "rustls"] }
tokio = { version = "1", features = ["macros", "rt-multi-thread", "process", "time", "sync"] }
reqwest = { version = "0.11", default-features = false, features = ["rustls-tls"] }
tracing = "0.1"
tracing-subscriber = { version = "0.3", features = ["env-filter"] }
