[package]
name = "actix_casbin_auth"
version = "0.1.0"
edition = "2021"
publish = false

[dependencies]
casbin = { version = "=2.20.0", default-features = false, features = ["cached", "runtime-async-std", "incremental"] }
async-std = "=1.13.2"
futures = "=0.3.34"
actix-web = "=4.15.0"
actix-service = "=2.0.3"
