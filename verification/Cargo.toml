[package]
name = "cis2_market"
version = "0.1.0"
edition = "2021"
publish = false

[dependencies]
concordium-std = "=8.1.0"
concordium-cis2 = "=5.1.0"
