[package]
name = "unimap"
version = "0.1.0"
edition = "2021"
publish = false

[dependencies]
clap = "*"
chrono = "*"
log = "*"
prettytable-rs = "*"
rayon = "*"
serde = { version = "*", features = ["derive"] }
serde-xml-rs = "*"
trust-dns-resolver = "*"
