[package]
name = "foxhole"
version = "0.5.0"
edition = "2021"
publish = false

[dependencies]
http = "1"
base64 = "0.22"
sha1 = "0.10"
mio = { version = "0.8", features = ["os-poll", "net"] }
rustls = "0.21"
chrono = { version = "0.4", default-features = false, features = ["clock"] }
