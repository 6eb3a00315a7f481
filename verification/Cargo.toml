[package]
name = "minecraft_server"
version = "0.1.0"
edition = "2021"
publish = false

[dependencies]
cesu8 = "1"
tokio = { version = "1", features = ["net", "io-util", "rt-multi-thread", "macros"] }
anyhow = "1"
log = "0.4"
env_logger = "0.11"
