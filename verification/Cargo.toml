[package]
name = "aranet"
version = "0.1.0"
edition = "2021"
publish = false

[dependencies]
btleplug = "0.10"
clap = { version = "4", features = ["derive"] }
futures = "0.3"
log = "0.4"
nagiosplugin = "*"
pretty_env_logger = "0.4"
serde_json = "1"
tokio = { version = "1", features = ["macros", "rt-multi-thread", "time"] }
uuid = "1"
