[package]
name = "dog"
version = "0.2.0"
edition = "2021"
publish = false

[dependencies]
getopts = "0.2"
ansi_term = "0.12"
atty = "0.2"
json = "*"
rustls = "0.23"
webpki-roots = "0.26"
