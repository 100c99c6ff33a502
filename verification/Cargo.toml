[package]
name = "lendbot"
version = "0.1.0"
edition = "2021"
publish = false

[dependencies]
anyhow = "*"
async-trait = "*"
dotenv = "*"
env_logger = "*"
log = "*"
serde = { version = "*", features = ["derive"] }
serde_yaml = "*"
tokio = { version = "*", features = ["macros", "rt-multi-thread", "time"] }
