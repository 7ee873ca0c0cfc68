[package]
name = "rae_cli"
version = "0.1.0"
edition = "2021"
publish = false

[dependencies]
scraper = "*"
html2text = "*"
reqwest = { version = "*", default-features = false, features = ["blocking"] }
inquire = "*"
clap = "*"
termsize = "*"
