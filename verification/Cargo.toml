[package]
name = "richter"
version = "0.1.0"
edition = "2021"
publish = false

[dependencies]
glutin = { version = "=0.29.1", default-features = false, features = ["x11"] }
log = "0.4"
