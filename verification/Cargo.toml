[package]
name = "gobject_generation"
version = "0.1.0"
edition = "2021"
publish = false

[dependencies]
codegen = "*"
