[package]
name = "spark_regexp_extract"
version = "0.1.0"
edition = "2021"
publish = false

[dependencies]
arrow = { version = "55", default-features = false }
datafusion-common = { version = "49", default-features = false }
datafusion-expr = { version = "49", default-features = false }
regex = "1"
