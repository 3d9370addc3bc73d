[package]
name = "robohome"
version = "0.1.0"
edition = "2021"
publish = false

[dependencies]
amqp = "*"
chrono = "0.4"
env_logger = "*"
lazy_static = "1"
log = "0.4"
postgres = { version = "*", features = ["with-chrono-0_4"] }
reqwest = { version = "*", default-features = false, features = ["blocking", "json"] }
serde = { version = "1", features = ["derive"] }
serde_json = "1"
toml = "*"
