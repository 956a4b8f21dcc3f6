[package]
name = "wl_library_link"
version = "0.1.0"
edition = "2021"
publish = false

[dependencies]
lazy_static = "1.4"
wolfram-expr = "=0.1.4"
