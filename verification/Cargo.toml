[package]
name = "elide"
version = "0.1.0"
edition = "2021"
publish = false

[dependencies]
sodiumoxide = "0.2"
rand = "0.8"
chrono = "0.4"
validator = "0.16"
