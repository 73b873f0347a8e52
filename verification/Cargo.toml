[package]
name = "vcard"
version = "0.1.0"
edition = "2021"
publish = false

[dependencies]
url = "2"
thiserror = "1"

[dev-dependencies]
regex = "1"
