[package]
name = "lps22"
version = "0.1.0"
edition = "2021"
publish = false

[dependencies]
cast = "0.3"
embedded-hal = "0.2"
generic-array = "0.12"
