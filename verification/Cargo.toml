[package]
name = "raw_rs"
version = "0.1.0"
edition = "2021"
publish = false

[dependencies]
byteorder = "*"
image = { version = "*", default-features = false, features = ["jpeg", "png"] }
rawloader = "*"
