[package]
name = "term_seq"
version = "0.1.0"
edition = "2021"
publish = false

[dependencies]
regex = "1"
unicode-width = "0.1"
clap = { version = "4", features = ["derive"] }
users = "0.11"
hostname = "0.4"
dirs = "5"
