[package]
name = "sqlite_vfs"
version = "0.1.0"
edition = "2021"
publish = false

[dependencies]
rand = "0.8"
time = "0.3"
libsqlite3-sys = { version = "*", features = ["bundled"] }
