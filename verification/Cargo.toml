[package]
name = "stratum_proxy"
version = "0.1.0"
edition = "2021"
publish = false

[dependencies]
futures = "*"
getopts = "*"
native-tls = "*"
tokio = { version = "*", features = ["full"] }
tokio-native-tls = "*"
