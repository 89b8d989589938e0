[package]
name = "storyfetch"
version = "0.1.0"
edition = "2021"
publish = false

[dependencies]
nipper = "0.1"
owo-colors = "3"
regex = "1"
reqwest = { version = "0.12", default-features = false, features = ["blocking"] }
structopt = "0.3"
ureq = "2"
url = "2"
