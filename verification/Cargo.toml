[package]
name = "gateway_addon"
version = "0.1.0"
edition = "2021"
publish = false

[dependencies]
serde_json = "1"
nanomsg = "*"
mqtt3 = "*"
