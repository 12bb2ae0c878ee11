[package]
name = "rust_liquid_dsp"
version = "0.1.0"
edition = "2021"
publish = false

[dependencies]
more-asserts = "*"
quick-error = "*"
serde = { version = "*", features = ["derive"] }
toml = "*"
cc = "*"
bindgen = "*"
