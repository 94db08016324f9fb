[package]
name = "app_host"
version = "0.1.0"
edition = "2021"
publish = false

[dependencies]
glutin = "0.19"
gl = "0.11"
