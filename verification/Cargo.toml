[package]
name = "chess_broker"
version = "0.1.0"
edition = "2021"
publish = false

[dependencies]
chess = "*"
rand = "=0.8.8"
