[package]
name = "qurop"
version = "0.1.0"
edition = "2021"
publish = false

[dependencies]
clap = { version = "*", features = ["derive"] }
colored = "*"
confy = "*"
directories = "*"
serde = { version = "*", features = ["derive"] }
thiserror = "*"
tracing = "*"
tracing-appender = "*"
tracing-subscriber = { version = "*", features = ["env-filter"] }
x11rb = "*"
