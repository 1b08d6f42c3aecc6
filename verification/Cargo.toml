[package]
name = "archive"
version = "0.1.0"
edition = "2021"
publish = false

[dependencies]
openssl = "=0.10.81"
tar = "=0.4.46"
clap = "=2.34.0"
atty = "=0.2.14"
libarchive = "=0.1.1"
