[package]
name = "interlink"
version = "0.1.0"
edition = "2021"
publish = false

[dependencies]
tokio = { version = "1", features = ["sync", "rt", "rt-multi-thread", "macros", "time"] }
futures = "0.3"
futures-util = { version = "0.3", features = ["sink"] }
futures-core = "0.3"
