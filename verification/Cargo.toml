[package]
name = "async-tftp"
version = "0.4.0"
edition = "2021"
publish = false

[dependencies]
bytes = "1"
async-io = "2"
async-lock = "3"
async-channel = "2"
futures-lite = "2"
futures-util = "0.3"
pin-utils = "0.1"
thiserror = "1"
blocking = "1"
