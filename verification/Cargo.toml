[package]
name = "x_monitor"
version = "0.1.0"
edition = "2021"
publish = false

[dependencies]
anyhow = "*"
chrono = "*"
crossterm = "*"
dotenvy = "*"
futures-util = "*"
ratatui = "*"
reqwest = { version = "*", default-features = false, features = ["json", "stream", "rustls-tls"] }
serde = { version = "*", features = ["derive"] }
serde_json = "*"
serde_yaml = "*"
tokio = { version = "*", features = ["macros", "rt-multi-thread", "sync", "time", "io-util"] }
tokio-util = { version = "*", features = ["io"] }
toml = "*"
uuid = { version = "*", features = ["v4", "serde"] }
webbrowser = "*"
