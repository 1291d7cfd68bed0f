[package]
name = "ed047tc1"
version = "0.1.0"
edition = "2021"
publish = false

[dependencies]
esp-hal = "*"
esp-println = "*"
