[package]
name = "moveos"
version = "0.1.0"
edition = "2021"
publish = false

[dependencies]
diesel = { version = "*", default-features = false, features = ["sqlite", "r2d2"] }
libsqlite3-sys = { version = "*", features = ["bundled"] }
