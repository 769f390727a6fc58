[package]
name = "remote_bot"
version = "0.1.0"
edition = "2021"
publish = false

[dependencies]
chrono = "0.4"
colored = "2"
config = "0.14"
lettre = "0.11"
reqwest = "0.12"
serde = { version = "1", features = ["derive"] }
serenity = "0.12"
tokio = { version = "1", features = ["macros", "rt-multi-thread", "fs"] }
url = "2"
warp = "0.3"
