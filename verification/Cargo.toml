[package]
name = "arcropolis"
version = "0.1.0"
edition = "2021"
publish = false

[dependencies]
parking_lot = "=0.12.5"
smash-arc = { version = "=0.6.0", features = ["nozstd"] }
