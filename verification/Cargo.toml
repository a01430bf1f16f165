[package]
name = "queries_ext"
version = "0.1.0"
edition = "2021"
publish = false

[dependencies]
borsh = "=0.9.3"
thiserror = "1"
