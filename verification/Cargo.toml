[package]
name = "city_pop"
version = "0.1.0"
edition = "2021"
publish = false

[dependencies]
csv = "0.15"
getopts = "0.2"
rustc-serialize = "0.3"
