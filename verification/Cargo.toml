[package]
name = "lexibook"
version = "0.1.0"
edition = "2021"
publish = false

[dependencies]
regex = "1"
rand = "0.8"
pest = "2"
pest_derive = "2"
serde = { version = "1", features = ["derive"] }
serde_json = "1"
bincode = "1"
brotli = "3"
structopt = "0.3"
prettytable-rs = "0.10"
