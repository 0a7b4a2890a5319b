[package]
name = "swb"
version = "0.1.0"
edition = "2021"
publish = false

[dependencies]
home = "*"
async-channel = "*"
confy = "*"
serde = { version = "*", features = ["derive"] }
log = "*"
gtk = "*"
webkit2gtk = "*"
