[package]
name = "badgen"
version = "0.1.0"
edition = "2021"
publish = false

[dependencies]
rustybuzz = "*"
ttf-parser = "*"
css-style = "*"
rhai = "*"
rhai-doc = "*"
