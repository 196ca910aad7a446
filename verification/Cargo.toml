[package]
name = "http_proxy"
version = "0.1.0"
edition = "2021"
publish = false

[dependencies]
httparse = "1"
async-std = "1"
futures = "0.3"
log = "0.4"
simplelog = "0.8"
clap = "2"
daemonize = "0.4"
quick-error = "2"
