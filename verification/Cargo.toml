[package]
name = "adxl343"
version = "0.8.0"
edition = "2021"
publish = false

[dependencies]
accelerometer = "0.12"
embedded-hal = "0.2"
