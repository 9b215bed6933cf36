[package]
name = "hostinfo"
version = "0.1.0"
edition = "2021"
publish = false

[dependencies]
dns-lookup = "*"
log = "0.4"
thiserror = "1"
utmp-rs = "*"
