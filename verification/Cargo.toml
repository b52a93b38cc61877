[package]
name = "clickhouse_decode"
version = "0.1.0"
edition = "2021"
publish = false

[dependencies]
chrono = "0.4"
chrono-tz = "*"
tokio-timer = "0.2"
url = "2"
native-tls = "0.2"
