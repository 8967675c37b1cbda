[package]
name = "eis_bridge"
version = "0.1.0"
edition = "2021"
publish = false

[dependencies]
anyhow = "=1.0.104"
calloop = "=0.14.5"
enumflags2 = "=0.7.12"
reis = { version = "=0.7.1", features = ["calloop"] }
tracing = "=0.1.44"
