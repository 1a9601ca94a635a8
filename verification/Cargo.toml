[package]
name = "mipidsi"
version = "0.1.0"
edition = "2021"
publish = false

[dependencies]
display-interface = "0.5"
embedded-graphics-core = "0.4"
embedded-hal = "1.0"
embedded-hal-async = "1.0"
heapless = "0.8"
