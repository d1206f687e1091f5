[package]
name = "bluelady_tools"
version = "0.1.0"
edition = "2021"
publish = false

[dependencies]
regex = "=1.13.1"
dirs = "=5.0.1"
once_cell = "=1.21.4"
reqwest = { version = "=0.12.28", features = ["blocking"] }
serde = { version = "=1.0.229", features = ["derive"] }
tokio = { version = "=1.54.1", features = ["full"] }
winapi = { version = "=0.3.9", features = ["winbase"] }
zip-extract = "=0.4.1"
