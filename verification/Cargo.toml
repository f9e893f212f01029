[package]
name = "hostmon"
version = "0.1.0"
edition = "2021"
publish = false

[dependencies]
clap = { version = "*", features = ["derive", "env"] }
dbus = "*"
hostname = "*"
log = "*"
simple_logger = "*"
