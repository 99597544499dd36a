[package]
name = "alttp_queue_bot"
version = "0.1.0"
edition = "2021"
publish = false

[dependencies]
rand = "*"
tokio = { version = "*", features = ["macros", "rt-multi-thread", "time"] }
twilight-http = "*"
twilight-model = "*"
speedrun-api = "*"
futures-util = "*"
dotenv = "*"
log = "*"
serde = { version = "*", features = ["derive"] }
serde_json = "*"
