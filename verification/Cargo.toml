[package]
name = "toolbox"
version = "0.1.0"
edition = "2021"
publish = false

[dependencies]
base64 = "=0.22.1"
iced = { version = "=0.14.0", default-features = false, features = ["sipper", "tiny-skia", "tokio", "x11"] }
rfd = { version = "=0.15.4", default-features = false, features = ["xdg-portal", "tokio"] }
tokio = { version = "=1.54.1", features = ["fs", "io-util", "net", "time"] }
tokio-util = "=0.7.20"
