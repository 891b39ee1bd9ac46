[package]
name = "ebs_restore"
version = "0.1.0"
edition = "2021"
publish = false

[dependencies]
clap = { version = "*", features = ["derive"] }
config = "*"
futures = "*"
inquire = "*"
tokio = { version = "*", features = ["macros", "rt-multi-thread"] }
