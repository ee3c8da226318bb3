[package]
name = "muzak"
version = "0.1.0"
edition = "2021"
publish = false

[dependencies]
async-trait = "0.1"
chrono = "0.4"
cpal = "0.15"
rb = "0.4"
tracing = "0.1"
