[package]
name = "factor_sqlite"
version = "0.1.0"
edition = "2021"
publish = false
