[package]
name = "start_link"
version = "0.1.0"
edition = "2021"
publish = false

[dependencies]
base64 = "=0.21.7"
env_logger = "=0.10.2"
log = "=0.4.34"
reqwest = "=0.11.27"
takecell = "<0.1.2"
teloxide = "=0.12.2"
tokio = { version = "=1.54.1", features = ["macros", "rt-multi-thread"] }
