[package]
name = "ftd2xx_embedded_hal"
version = "0.5.1"
edition = "2021"
publish = false

[dependencies]
libftd2xx = { version = "=0.33.1", features = ["static"] }
embedded-hal = "=0.2.7"
