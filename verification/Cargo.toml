[package]
name = "backup_wrapper"
version = "0.1.0"
edition = "2021"
publish = false

[dependencies]
walkdir = "2"
xattr = "*"
clap = "2"
