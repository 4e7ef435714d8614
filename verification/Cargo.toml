[package]
name = "distillate"
version = "0.1.0"
edition = "2021"
publish = false

[dependencies]
pulldown-cmark = "0.8"
handlebars = "*"
serde_json = "1"
chrono = "0.4"
toml = "*"
structopt = "0.3"
