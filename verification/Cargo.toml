[package]
name = "peeksy"
version = "0.1.0"
edition = "2021"
publish = false

[dependencies]
anyhow = "1"
base64 = "0.21"
clap = { version = "4", features = ["derive"] }
dirs = "*"
log = "0.4"
notify = "*"
rayon = "1"
reqwest = "*"
serde = { version = "1", features = ["derive"] }
serde_json = "1"
simplelog = "*"
tokio = { version = "1", features = ["full"] }
