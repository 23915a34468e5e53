[package]
name = "wsproxy"
version = "0.1.0"
edition = "2021"
publish = false

[dependencies]
md5 = "0.7"
sha2 = "0.10"
aes-gcm = "0.10"
uuid = "1"
getrandom = "0.2"
serde_json = "1"
