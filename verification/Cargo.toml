[package]
name = "dice_session"
version = "0.1.0"
edition = "2021"
publish = false

[dependencies]
serde_json = "=1.0.154"
serde = { version = "=1.0.229", features = ["derive"] }
reqwest = { version = "=0.12.28", default-features = false, features = ["json"] }
tokio = { version = "=1.54.1", features = ["rt-multi-thread", "macros"] }
eventsource-client = { version = "=0.13.0", default-features = false }
futures = "=0.3.34"
ratatui = "=0.29.0"
crossterm = "=0.28.1"
thiserror = "=2.0.21"
