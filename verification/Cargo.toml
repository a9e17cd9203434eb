[package]
name = "gss_credential"
version = "0.1.0"
edition = "2021"
publish = false

[dependencies]
libgssapi-sys = "*"
