[package]
name = "vk_client"
version = "0.1.0"
edition = "2021"
publish = false

[dependencies]
unicode-width = "*"
rand = "0.8"
mime_guess = "2"
time = { version = "0.3", features = ["formatting", "macros"] }
serde = { version = "1", features = ["derive"] }
serde_json = "1"
anyhow = "1"
crossterm = "*"
ratatui = "*"
tokio = { version = "1", features = ["rt-multi-thread", "macros", "sync", "time"] }
reqwest = { version = "0.12", default-features = false, features = ["json", "multipart", "rustls-tls"] }
open = "*"
directories = "*"
tracing = "0.1"
