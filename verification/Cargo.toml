[package]
name = "stabilized_intrinsics"
version = "0.1.0"
edition = "2021"
publish = false

[dependencies]
if_chain = "1.0"
