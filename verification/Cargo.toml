[package]
name = "commit_templater"
version = "0.1.0"
edition = "2021"
publish = false

[dependencies]
itertools = "0.12"
jj-lib = "0.14.0"
once_cell = "1"
pest = "2"
