[package]
name = "async_async_io"
version = "0.1.0"
edition = "2021"
publish = false

[dependencies]
tokio = "1"
reusable-box-future = "0.2"
async-trait = "0.1"
