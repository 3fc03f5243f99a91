[package]
name = "cubely_core"
version = "0.1.0"
edition = "2021"
publish = false

[dependencies]
dirs = "*"
zip = { version = "*", default-features = false, features = ["deflate"] }
flate2 = "*"
tar = "*"
serde = { version = "*", features = ["derive"] }
serde_json = "*"
reqwest = { version = "*", default-features = false, features = ["blocking"] }
