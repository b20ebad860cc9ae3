[package]
name = "ruled_client"
version = "0.1.0"
edition = "2021"
publish = false

[dependencies]
chrono = "0.4"
async-std = "1"
async-trait = "0.1"
