[package]
name = "loadcore"
version = "0.1.0"
edition = "2021"
publish = false

[dependencies]
chrono = "*"
tokio = { version = "*", features = ["full"] }
quinn = "*"
h3 = "*"
h3-quinn = "*"
http = "*"
rustls = "*"
rustls-native-certs = "*"
bytes = "*"
async-channel = "*"
redis = { version = "*", features = ["tokio-comp"] }
