[package]
name = "batteread"
version = "0.1.0"
edition = "2021"
publish = false

[dependencies]
anyhow = "*"
bluer = { version = "*", features = ["bluetoothd"] }
crc16 = "*"
futures-util = "*"
hex = "*"
tokio = { version = "*", features = ["full"] }
