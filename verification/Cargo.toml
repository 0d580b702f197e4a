[package]
name = "pinboard"
version = "0.1.0"
edition = "2021"
publish = false

[dependencies]
anyhow = "1"
log = "0.4"
once_cell = "1"
poise = "0.6"
rand = "0.8"
serenity = "0.12"
url = "2"
