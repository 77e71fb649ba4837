[package]
name = "cnvrt"
version = "0.1.0"
edition = "2021"
publish = false

[dependencies]
image = "*"
zip = "*"
tar = "*"
xz2 = "*"
uuid = { version = "*", features = ["v4"] }
dirs = "*"
