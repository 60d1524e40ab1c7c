[package]
name = "blatex"
version = "0.1.0"
edition = "2021"
publish = false

[dependencies]
clap = { version = "4.3", features = ["derive"] }
directories = "5.0"
fuzzy_finder = "0.4"
serde = { version = "1", features = ["derive"] }
termion = "2.0"
toml = "0.7"
zip-extensions = "0.6"
