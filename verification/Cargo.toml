[package]
name = "ollama_tui"
version = "0.1.0"
edition = "2021"
publish = false

[dependencies]
serde_json = "1"
serde = { version = "1", features = ["derive"] }
reqwest = { version = "0.12", default-features = false, features = ["blocking", "json"] }
ratatui = "0.29"
crossterm = "0.28"
meval = "0.2"
