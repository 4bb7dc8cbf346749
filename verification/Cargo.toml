[package]
name = "import_scanner"
version = "0.1.0"
edition = "2021"
publish = false

[dependencies]
swc_common = "*"
swc_ecmascript = { version = "*", features = ["parser"] }
url = "*"
serde = { version = "*", features = ["derive"] }
serde_json = "*"
