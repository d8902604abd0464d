[package]
name = "request_gateway"
version = "0.1.0"
edition = "2021"
publish = false

[dependencies]
actix-web = "4"
futures-util = "0.3"
