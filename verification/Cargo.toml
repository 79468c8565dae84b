[package]
name = "colscan"
version = "0.1.0"
edition = "2021"
publish = false

[dependencies]
arrow = "*"
parquet = "*"
tantivy = "*"
bytes = "*"
