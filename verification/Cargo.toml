[package]
name = "compound_dialogue"
version = "0.1.0"
edition = "2021"
rust-version = "1.95"
publish = false

[dependencies]
log = "=0.4.34"
pretty_env_logger = "=0.5.0"
takecell = "=0.1.1"
teloxide = "=0.17.0"
tokio = { version = "=1.54.1", features = ["macros", "rt-multi-thread"] }
