[package]
name = "mfrc522-async"
version = "0.1.0"
edition = "2021"
publish = false

[dependencies]
embedded-hal-async = "1.0"
embedded-hal = "0.2"
embassy-time = "*"
heapless = "0.8"
