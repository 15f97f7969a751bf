[package]
name = "mp3_mover"
version = "0.1.0"
edition = "2021"
publish = false

[dependencies]
audiotags = "*"
glob = "*"
log = "*"
env_logger = "*"
