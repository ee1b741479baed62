[package]
name = "great_atuin"
version = "0.1.0"
edition = "2021"
publish = false

[dependencies]
hex = "*"
pcap = "*"
ctrlc = "*"
log = "*"
env_logger = "*"
chrono = "*"
thiserror = "*"
