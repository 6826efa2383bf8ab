[package]
name = "mos-6502-disassembler"
version = "0.1.0"
edition = "2021"
publish = false

[dependencies]
askama = "*"
axum = "*"
clap = { version = "*", features = ["derive"] }
poem = { version = "*", features = ["multipart"] }
poem-openapi = { version = "*", features = ["swagger-ui"] }
serde = { version = "*", features = ["derive"] }
tokio = { version = "*", features = ["macros", "rt-multi-thread", "net"] }
tracing = "*"
tracing-subscriber = "*"
