[package]
name = "typed_num"
version = "0.1.0"
edition = "2021"
publish = false

[dependencies]
num-traits = "0.2"
float_next_after = "1"
geo = { version = "*", default-features = false }
