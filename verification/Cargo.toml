[package]
name = "minidom_ext"
version = "1.0.0"
edition = "2021"
publish = false

[dependencies]
anyhow = "1"
minidom = "0.12"
thiserror = "1"
