[package]
name = "pgfplots"
version = "0.1.0"
edition = "2021"
publish = false

[dependencies]
opener = "=0.9.0"
thiserror = "=2.0.21"
