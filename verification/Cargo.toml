[package]
name = "defined"
version = "0.1.0"
edition = "2021"
publish = false

[dependencies]
serde = "1"
serde_json = "1"
schemars = "0.8"
sea-query = "*"
oasgen = "*"
juniper = "0.16"
