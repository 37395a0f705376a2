[package]
name = "s3redirects"
version = "0.1.0"
edition = "2021"
publish = false

[dependencies]
clap = "2"
csv = "1"
futures = "0.1"
rusoto_core = "0.42"
rusoto_s3 = "0.42"
