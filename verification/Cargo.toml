[package]
name = "chksum-reader"
version = "0.1.0"
edition = "2021"
publish = false

[dependencies]
chksum-core = "0.1.0"
tokio = { version = "1", features = ["io-util"] }

[dev-dependencies]
chksum-md5 = { version = "0.1.0", default-features = false }
tokio = { version = "1", features = ["io-util", "rt"] }
