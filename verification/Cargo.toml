[package]
name = "volt_registry"
version = "0.1.0"
edition = "2021"
publish = false

[dependencies]
hex = "0.4"
imagesize = "*"
semver = "1"
sha1 = "0.10"
