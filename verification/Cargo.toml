[package]
name = "fio_api_rs"
version = "0.1.0"
edition = "2021"
publish = false

[dependencies]
chrono = { version = "*", default-features = false, features = ["clock"] }
reqwest = { version = "*", default-features = false, features = ["multipart"] }
tokio = { version = "*", default-features = false, features = ["time", "rt", "macros"] }
