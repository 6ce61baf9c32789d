[package]
name = "tk-http"
version = "0.8.4"
edition = "2021"
publish = false

[dependencies]
httparse = "1"
rand = "0.8"
futures = "0.1"
tokio-io = "0.1"
tk-bufstream = "0.3"
