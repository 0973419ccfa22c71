[package]
name = "monoio"
version = "0.1.0"
edition = "2021"
publish = false

[dependencies]
flume = "0.10"
fxhash = "0.2"
scoped-tls = "1.0"
