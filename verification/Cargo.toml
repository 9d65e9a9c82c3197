[package]
name = "tera_text_filters"
version = "1.0.0"
edition = "2021"
publish = false

[dependencies]
heck = "0.3"
tera = { version = "1", default-features = false }
