[package]
name = "rocksdbex_native"
version = "0.1.0"
edition = "2021"
publish = false

[dependencies]
rocksdb = { version = "*", default-features = false }
rustler = "*"
