[package]
name = "figex"
version = "0.1.0"
edition = "2021"
publish = false

[dependencies]
anyhow = "=1.0.104"
async-trait = "=0.1.92"
clap = { version = "=4.6.7", features = ["derive"] }
dirs = "=5.0.1"
figlet-rs = "1"
futures-util = { version = "=0.3.34", features = ["sink"] }
owo-colors = "=4.4.0"
reqwest = { version = "=0.12.28", default-features = false, features = ["json"] }
rust-embed = "=8.13.0"
serde = { version = "=1.0.229", features = ["derive"] }
serde_json = "=1.0.154"
thiserror = "=1.0.69"
tokio = { version = "=1.54.1", features = ["rt", "macros", "net", "time"] }
tokio-tungstenite = "=0.21.0"
toml = "=0.8.23"
