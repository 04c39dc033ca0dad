[package]
name = "bonkr_engine"
version = "0.1.0"
edition = "2021"
publish = false

[dependencies]
anchor-lang = "0.30.1"
anchor-spl = "0.30.1"
