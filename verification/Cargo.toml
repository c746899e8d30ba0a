[package]
name = "tool_sync"
version = "0.1.0"
edition = "2021"
publish = false

[dependencies]
toml = "*"
flate2 = "*"
tar = "*"
zip = { version = "*", default-features = false, features = ["deflate"] }
console = "*"
indicatif = "*"
shellexpand = "*"
