[package]
name = "matrix-relay"
version = "0.1.0"
edition = "2021"
publish = false

[dependencies]
anyhow = "=1.0.104"
clap = { version = "=4.6.7", features = ["derive", "env"] }
clap-verbosity-flag = "=3.0.4"
indoc = "=2.0.8"
matrix-sdk = { version = "=0.18.0", default-features = false, features = ["markdown"] }
reqwest = { version = "=0.13.5", default-features = false }
rmcp = { version = "=3.8.0", features = ["client", "auth", "transport-streamable-http-client-reqwest"] }
sd-listen-fds = "=0.2.0"
secrecy = "=0.10.3"
serde = { version = "=1.0.229", features = ["derive"] }
serde_json = "=1.0.154"
strum = { version = "=0.28.0", features = ["derive"] }
tokio = { version = "=1.54.1", features = ["net", "io-util", "rt-multi-thread", "macros"] }
tracing = "=0.1.44"
