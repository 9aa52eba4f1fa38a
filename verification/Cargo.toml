[package]
name = "srt_listener"
version = "0.1.0"
edition = "2021"
publish = false

[dependencies]
failure = "0.1"
futures = "0.3"
log = "0.4"
