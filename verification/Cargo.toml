[package]
name = "coggerator"
version = "0.1.0"
edition = "2021"
publish = false

[dependencies]
gdal = "0.16"
serde = "1"
tempfile = "3"
thiserror = "1"
