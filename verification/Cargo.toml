[package]
name = "pong"
version = "0.1.0"
edition = "2021"
publish = false

[dependencies]
rand = "=0.8.8"
smoltcp = "=0.7.5"
r0 = "=0.2.2"
