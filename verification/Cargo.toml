[package]
name = "smt_api_client"
version = "0.1.0"
edition = "2021"
publish = false

[dependencies]
embassy-sync = "=0.8.0"
embassy-embedded-hal = "=0.6.0"
embedded-hal-async = "=1.0.0"
heapless = "=0.9.3"
