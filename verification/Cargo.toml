[package]
name = "round_bridge"
version = "0.1.0"
edition = "2021"
publish = false

[dependencies]
futures = "0.1"
parking_lot = "0.12"
