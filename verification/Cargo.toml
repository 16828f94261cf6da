[package]
name = "ecmui"
version = "0.1.0"
edition = "2021"
publish = false

[dependencies]
clap = { version = "*", features = ["derive"] }
eva-client = "*"
eva-common = "*"
serde = { version = "*", features = ["derive"] }
serde_json = "*"
serde_yaml = "*"
tokio = { version = "*", features = ["macros", "rt", "sync", "time"] }
uuid = { version = "*", features = ["v4"] }
