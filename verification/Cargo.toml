[package]
name = "network_bridge"
version = "0.1.0"
edition = "2021"
publish = false

[dependencies]
futures = "0.3"
structopt = "0.3"
tetsy-scale-codec = { version = "2.0", features = ["derive"] }
tracing = "0.1"
