[package]
name = "kaldav"
version = "0.1.0"
edition = "2021"
publish = false

[dependencies]
base64 = "0.22"
chrono = { version = "0.4", default-features = false, features = ["std"] }
embedded-svc = "*"
esp-idf-svc = "*"
ikal = "*"
sxd-document = "0.3"
sxd-xpath = "0.4"
thiserror = "1"
url = "2"
