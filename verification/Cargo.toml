[package]
name = "flipperzero"
version = "0.1.0"
edition = "2021"
publish = false

[dependencies]
uuid = { version = "=1.29.1", default-features = false }
rand_core = "=0.6.4"
embedded-hal = "=1.0.0"
ufmt = "=0.2.0"
embedded-graphics-core = "0.4"
