[package]
name = "kanikani"
version = "0.1.0"
edition = "2021"
publish = false

[dependencies]
anyhow = "1"
chrono = { version = "0.4", features = ["serde"] }
crossterm = "0.29"
directories = "6"
image = "0.25"
ratatui = "0.29"
reqwest = { version = "=0.12.28", default-features = false, features = ["blocking", "json", "rustls-tls"] }
resvg = "0.48"
serde = { version = "1", features = ["derive"] }
serde_json = "1"
terminal_size = "0.4"
toml = "0.9"
