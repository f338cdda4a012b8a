[package]
name = "libunftp"
version = "0.1.0"
edition = "2021"
publish = false

[dependencies]
tokio = { version = "1", features = ["net", "rt", "macros", "io-util", "time"] }
futures = "0.3"
log = "0.4"
async-trait = "0.1"
