[package]
name = "chordmate"
version = "0.1.0"
edition = "2021"
publish = false

[dependencies]
base64 = "0.22"
serde_json = "1"
axum = "0.8"
clap = { version = "4", features = ["derive", "env"] }
deadpool = "0.12"
deadpool-postgres = "0.14"
dotenvy = "0.15"
reqwest = { version = "0.12", default-features = false, features = ["json"] }
serde = { version = "1", features = ["derive"] }
thiserror = "2"
tokio = { version = "1", features = ["full"] }
tokio-postgres = "0.7"
