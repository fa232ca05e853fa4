[package]
name = "alchemy_engine"
version = "0.1.0"
edition = "2021"
publish = false

[dependencies]
convert_case = "*"
pluralizer = "*"
serde_json = "1"
juniper = "*"
juniper_actix = "*"
actix-web = "4"
actix-cors = "*"
rust_arango = "*"
