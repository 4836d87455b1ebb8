[package]
name = "umami_alerts"
version = "0.1.0"
edition = "2021"
publish = false

[dependencies]
chrono = "=0.4.45"
chrono-tz = "=0.10.4"
url = "=2.5.8"
serde = { version = "=1.0.229", features = ["derive"] }
serde_json = "=1.0.151"
toml = "=1.1.7"
tokio = { version = "=1.53.2", features = ["macros", "rt-multi-thread", "sync", "fs"] }
reqwest = { version = "=0.13.5", default-features = false, features = ["json", "query"] }
lettre = { version = "=0.11.23", default-features = false, features = ["smtp-transport", "tokio1", "builder", "tokio1-rustls-tls"] }
handlebars = "=6.4.4"
clap = { version = "=4.6.7", features = ["derive"] }
futures = "=0.3.34"
tracing = "=0.1.44"
tracing-subscriber = "=0.3.23"
