[package]
name = "aho_corasick_nif"
version = "0.1.0"
edition = "2021"
publish = false

[dependencies]
aho-corasick = "=1.1.5"
rustler = "=0.31.0"
jemallocator = "=0.5.4"
