[package]
name = "rustls"
version = "0.1.0"
edition = "2021"
publish = false

[dependencies]
ring = "0.16"
webpki = "0.21"
libfuzzer-sys = "0.4"
