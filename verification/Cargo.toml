[package]
name = "ts_lower"
version = "0.1.0"
edition = "2021"
publish = false

[dependencies]
swc_common = "=26.0.0"
swc_ecma_ast = "=29.0.2"
swc_ecma_parser = "=46.0.0"
swc_ecma_visit = "=29.0.0"
serde_json = "=1.0.151"
