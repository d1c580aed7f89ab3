[package]
name = "apidoc"
version = "0.1.0"
edition = "2021"
publish = false

[dependencies]
rustc-serialize = "0.3"
hyper = "0.10"
toml = "*"
docopt = "*"
serde = { version = "1", features = ["derive"] }
