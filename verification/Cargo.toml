[package]
name = "handsfree"
version = "0.1.0"
edition = "2021"
publish = false

[dependencies]
cxx = "1"
log = "0.4"
