[package]
name = "kakistocracy"
version = "0.2.0"
edition = "2021"
publish = false

[dependencies]
png = "0.17"
futures = "0.3"
