[package]
name = "baz_printing"
version = "0.1.0"
edition = "2021"
publish = false

[dependencies]
reqwest = { version = "=0.12.28", default-features = false, features = ["blocking"] }
url = "=2.5.8"
whoami = "=2.1.3"
rkyv = "=0.8.18"
clap = { version = "=4.6.7", features = ["derive"] }
dotenvy = "=0.15.7"
