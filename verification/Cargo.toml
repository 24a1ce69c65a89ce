[package]
name = "vecile"
version = "0.1.0"
edition = "2021"
publish = false

[dependencies]
console_engine = { version = "=2.6.1", features = ["event"] }
crossterm = "=0.29.0"
fs_extra = "=1.3.0"
