[package]
name = "emerald_client"
version = "0.1.0"
edition = "2021"
publish = false

[dependencies]
chrono = "0.4"
tonic = "0.12"
tower = "0.4"
http = "1"
bytes = "1"
futures = "0.3"
prost = "0.13"
