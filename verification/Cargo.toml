[package]
name = "majiang_core"
version = "0.1.0"
edition = "2021"
publish = false

[dependencies]
rand = "=0.8.8"
strum = { version = "=0.26.3", features = ["derive"] }
strum_macros = "=0.26.4"
