[package]
name = "pazeify"
version = "0.1.0"
edition = "2021"
publish = false

[dependencies]
gif = "0.12"
image = "0.24"
poise = "0.5"
reqwest = "0.11"
thiserror = "1"
tokio = { version = "1", features = ["macros", "rt-multi-thread"] }
