[package]
name = "kurzlink"
version = "0.1.0"
edition = "2021"
publish = false

[dependencies]
qrcode = "=0.12.0"
image = { version = "=0.23.14", default-features = false, features = ["png"] }
svg2pdf = "=0.6.0"
ctrlc = "*"

[dev-dependencies]
rqrr = "=0.11.0"
