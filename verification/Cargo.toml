[package]
name = "smartloop"
version = "0.1.0"
edition = "2021"
publish = false

[dependencies]
async-openai = { version = "0.28", features = ["byot"] }
clap = { version = "4", features = ["derive"] }
futures-util = "0.3"
prettytable = "0.10"
reqwest = { version = "0.12", default-features = false, features = ["blocking", "json", "multipart"] }
serde_json = "1"
tokio = { version = "1", features = ["rt-multi-thread"] }
