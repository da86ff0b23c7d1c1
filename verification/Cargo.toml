[package]
name = "kritik"
version = "0.1.0"
edition = "2021"
publish = false

[dependencies]
clap = "2.33"
console = "0.15"
indicatif = "0.15"
