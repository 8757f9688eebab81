[package]
name = "gandi_ddns"
version = "0.1.0"
edition = "2021"
publish = false

[dependencies]
anyhow = "1"
clap = { version = "3", features = ["derive"] }
isahc = { version = "1", features = ["json"] }
serde = { version = "1", features = ["derive"] }
serde_json = "1"
