[package]
name = "sqs_replay"
version = "0.1.0"
edition = "2021"
publish = false

[dependencies]
uuid = { version = "*", features = ["v4"] }
clap = "*"
colored = "*"
tokio = { version = "*", features = ["macros", "rt-multi-thread"] }
rusoto_core = { version = "*", default-features = false, features = ["rustls"] }
rusoto_sqs = { version = "*", default-features = false, features = ["rustls"] }
