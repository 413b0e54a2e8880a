[package]
name = "parquet_vtab"
version = "0.1.0"
edition = "2021"
publish = false

[dependencies]
chrono = "=0.4.45"
parquet = { version = "=60.0.0", default-features = false, features = ["json"] }
serde_json = "*"
sqlite-loadable = "=0.0.5"
