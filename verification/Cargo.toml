[package]
name = "cheap_alerts"
version = "0.1.0"
edition = "2021"
publish = false

[dependencies]
lettre = "0.9"
chrono = "0.4"
structopt = "0.3"
