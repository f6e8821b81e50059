[package]
name = "nested_route"
version = "0.1.0"
edition = "2021"
publish = false

[dependencies]
either_of = "0.1"
