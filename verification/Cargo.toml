[package]
name = "kino"
version = "0.1.0"
edition = "2021"
publish = false

[dependencies]
iced = { version = "=0.14.0", default-features = false, features = ["tiny-skia", "image-without-codecs", "advanced", "tokio", "x11"] }
image = { version = "0.25", default-features = false, features = ["png", "jpeg"] }
gstreamer = "=0.23.7"
gstreamer-app = "=0.23.5"
glib = "=0.20.12"
tokio = { version = "=1.54.1", features = ["rt"] }
url = "=2.5.8"
