[package]
name = "prompt_relay"
version = "0.1.0"
edition = "2021"
publish = false

[dependencies]
actix-files = "0.6"
actix-web = "4"
futures-util = "0.3"
langchain-rust = "*"
serde = { version = "1", features = ["derive"] }
