[package]
name = "worm"
version = "0.1.0"
edition = "2021"
publish = false

[dependencies]
attribution = "*"
postgres = "0.19"
proc-macro2 = "1"
quote = "1"
r2d2 = "0.8"
rocket_contrib = { version = "0.4", default-features = false, features = ["databases"] }
syn = "1"
