[package]
name = "moc2cmo"
version = "0.1.0"
edition = "2021"
publish = false

[dependencies]
crc32fast = "1"
flate2 = "1"
quick-xml = "*"
serde = { version = "1", features = ["derive"] }
serde_json = "1"
thiserror = "*"
uuid = { version = "1", features = ["v4"] }
zip = { version = "*", default-features = false, features = ["deflate"] }
