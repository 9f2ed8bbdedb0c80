[package]
name = "himalaya"
version = "0.1.0"
edition = "2021"
publish = false

[dependencies]
anyhow = "=1.0.104"
clap = { version = "=4.6.7", features = ["derive"] }
dialoguer = "=0.12.0"
log = "=0.4.34"
mail-parser = "=0.9.4"
mml-lib = "=1.1.2"
serde = { version = "=1.0.229", features = ["derive"] }
serde_json = "1"
tokio = { version = "=1.53.2", features = ["rt", "macros"] }
uuid = { version = "=1.27.0", features = ["v4"] }
