[package]
name = "tag_firmware"
version = "0.1.0"
edition = "2021"
publish = false

[dependencies]
cty = "*"
da14531-hal = "*"
da14531-sdk = "*"
rtt-target = "*"
