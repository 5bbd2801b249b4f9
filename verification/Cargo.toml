[package]
name = "soft-serve"
version = "0.1.0"
edition = "2021"
publish = false

[dependencies]
async-tftp = "=0.4.2"
clap = { version = "=4.6.7", features = ["derive"] }
color-eyre = "=0.6.5"
http-body-util = "=0.1.5"
hyper = { version = "=1.12.0", features = ["server", "http1", "http2"] }
hyper-util = { version = "=0.1.21", features = ["tokio", "server-auto", "http1", "http2"] }
libunftp = "0.18"
mime_guess = "=2.0.5"
tokio = { version = "=1.54.1", features = ["full"] }
tokio-stream = "=0.1.19"
tokio-util = { version = "=0.7.20", features = ["io"] }
tracing = "=0.1.44"
tracing-subscriber = { version = "=0.3.23", features = ["env-filter"] }
unftp-sbe-fs = "=0.2.2"
