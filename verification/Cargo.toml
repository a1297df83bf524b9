[package]
name = "greeter"
version = "0.1.0"
edition = "2021"
publish = false

[dependencies]
actix-web = { version = "4", default-features = false, features = ["macros"] }
env_logger = "*"
juniper = { version = "*", default-features = false }
juniper_actix = "*"
