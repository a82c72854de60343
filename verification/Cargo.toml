[package]
name = "skailar"
version = "0.0.1"
edition = "2021"
publish = false

[dependencies]
bytes = "1"
futures-timer = "3"
futures-util = "0.3"
reqwest = { version = "0.12", features = ["json", "stream"] }
serde = { version = "1", features = ["derive"] }
serde_json = "1"
thiserror = "2"
url = "2"
