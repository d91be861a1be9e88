[package]
name = "ina233"
version = "0.1.0"
edition = "2021"
publish = false

[dependencies]
embedded-hal = "1.0"
thiserror = "2"
uom = { version = "*", default-features = false, features = ["f32", "si", "std"] }
