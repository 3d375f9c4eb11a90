[package]
name = "gauss_newton_rs"
version = "0.1.0"
edition = "2021"
publish = false
