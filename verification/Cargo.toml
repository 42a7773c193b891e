[package]
name = "election_agent"
version = "0.1.0"
edition = "2021"
publish = false

[dependencies]
clap = "*"
etcd-client = "*"
tokio = { version = "*", features = ["macros", "rt-multi-thread", "sync", "time"] }
tracing = "*"
tracing-subscriber = "*"
