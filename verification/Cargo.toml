[package]
name = "federated_fetch"
version = "0.1.0"
edition = "2021"
publish = false

[dependencies]
apollo-compiler = "*"
futures = "*"
http = "*"
tower = { version = "*", features = ["util"] }
tracing = "*"
