[package]
name = "rover_core"
version = "0.1.0"
edition = "2021"
publish = false

[dependencies]
gpio = "0.4"
rand = "0.8"
