[package]
name = "ul_next"
version = "0.1.0"
edition = "2021"
publish = false

[dependencies]
regex = "=1.13.1"
thiserror = "=2.0.21"
glium = { version = "=0.36.0", default-features = false }
bindgen = "=0.73.2"
