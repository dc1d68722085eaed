[package]
name = "devcont"
version = "0.1.0"
edition = "2021"
publish = false

[dependencies]
anyhow = "1"
clap = { version = "4", features = ["derive"] }
colored = "*"
directories = "*"
json5 = "*"
serde = { version = "1", features = ["derive"] }
shellexpand = "*"
thiserror = "*"
tinytemplate = "1"
toml = "*"
