[package]
name = "alvr_sockets"
version = "0.1.0"
edition = "2021"
publish = false

[dependencies]
rusb = "0.9"
xshell = "0.2"
