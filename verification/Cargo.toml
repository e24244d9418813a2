[package]
name = "fields_valid"
version = "0.1.0"
edition = "2021"
publish = false

[dependencies]
regex = "1"
lazy_static = "1"
syn = "1"
quote = "1"
proc-macro2 = "1"
bigdecimal = "0.3"
