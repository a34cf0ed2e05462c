[package]
name = "json_union_to_text"
version = "0.1.0"
edition = "2021"
publish = false

[dependencies]
datafusion = { version = "53", default-features = false }
