[package]
name = "dbpool"
version = "0.1.0"
edition = "2021"
publish = false

[dependencies]
async-channel = "2"
futures = "0.3"
