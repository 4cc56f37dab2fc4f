[package]
name = "prover_pipeline"
version = "0.1.0"
edition = "2021"

[dependencies]
sha3 = "*"
postcard = { version = "*", features = ["alloc"] }
tokio = { version = "*", features = ["rt-multi-thread", "sync", "time"] }
tokio-util = "*"
futures = "*"
