[package]
name = "epd_waveshare_async"
version = "0.1.0"
edition = "2021"
publish = false

[dependencies]
embedded-graphics = "0.8"
embedded-hal = "1.0"
embedded-hal-async = "1.0"
heapless = "0.8"
