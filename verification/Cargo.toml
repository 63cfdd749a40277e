[package]
name = "multidigest"
version = "0.1.0"
edition = "2021"
publish = false

[dependencies]
md-5 = "*"
sha1 = "*"
sha2 = "*"
sm3 = "*"
hex = "*"
base64 = "*"
infer = "*"
mime_guess = "*"
