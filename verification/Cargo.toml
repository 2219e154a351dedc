[package]
name = "licitacao360"
version = "0.1.0"
edition = "2021"
publish = false

[dependencies]
calamine = "=0.36.1"
image = { version = "=0.25.10", default-features = false, features = ["png"] }
utf8parse = "=0.2.2"
