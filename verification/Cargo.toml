[package]
name = "symlink_lint"
version = "0.1.0"
edition = "2021"
publish = false

[dependencies]
ignore = "0.4"
rayon = "1"
