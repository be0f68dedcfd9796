[package]
name = "fetch_rewrite"
version = "0.1.0"
edition = "2021"
publish = false

[dependencies]
swc_core = { version = "=82.0.0", features = ["common", "ecma_ast", "ecma_visit"] }
