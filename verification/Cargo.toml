[package]
name = "async_ssh2_lite"
version = "0.1.0"
edition = "2021"
publish = false

[dependencies]
ssh2 = "*"
async-io = "*"
futures = "*"
