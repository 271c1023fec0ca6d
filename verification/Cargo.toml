[package]
name = "cachyos_hello"
version = "0.1.0"
edition = "2021"
publish = false

[dependencies]
anyhow = "1"
glib = "0.18"
gtk = "0.18"
once_cell = "1"
subprocess = "0.2"
tokio = { version = "1", features = ["rt-multi-thread"] }
tracing = "0.1"
