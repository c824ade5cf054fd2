[package]
name = "jvmcraft"
version = "0.1.0"
edition = "2021"
publish = false

[dependencies]
clap = { version = "4", features = ["derive"] }
color-eyre = "0.6"
log = "0.4"
thiserror = "2"
tracing-subscriber = "0.3"
walkdir = "2"
