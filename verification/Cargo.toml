[package]
name = "binary_plugin"
version = "0.1.0"
edition = "2021"
publish = false

[dependencies]
query_interface = "*"
async-trait = "0.1"
