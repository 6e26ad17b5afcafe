[package]
name = "symbolfetch"
version = "0.1.0"
edition = "2021"
publish = false

[dependencies]
exe = "*"
reqwest = { version = "*", default-features = false, features = ["blocking"] }
clap = { version = "*", features = ["derive"] }
tracing = "*"
tracing-subscriber = { version = "*", features = ["env-filter"] }

[dev-dependencies]
hex = "*"
