[package]
name = "capture_timestamp"
version = "0.1.0"
edition = "2021"
publish = false
