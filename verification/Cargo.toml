[package]
name = "nps"
version = "0.1.0"
edition = "2021"
publish = false

[dependencies]
clap = { version = "*", features = ["derive"] }
miette = "*"
tokio = { version = "*", features = ["macros", "rt-multi-thread", "process", "fs", "io-util"] }
which = "*"
indicatif = "*"
tracing = "*"
tracing-subscriber = { version = "*", features = ["env-filter"] }
