[package]
name = "cursive_tabs"
version = "0.1.0"
edition = "2021"
publish = false

[dependencies]
crossbeam = "*"
cursive_core = "*"
num = "*"
