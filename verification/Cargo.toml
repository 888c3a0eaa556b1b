[package]
name = "emoji_logger"
version = "0.1.0"
edition = "2021"
publish = false

[dependencies]
ansi_term = "*"
env_logger = "*"
log = "*"
