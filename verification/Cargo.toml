[package]
name = "ultramodmanager"
version = "0.1.0"
edition = "2021"
publish = false

[dependencies]
cygrind-utils = "=0.2.1"
dirs = "=7.0.0"
json5 = "=0.4.1"
logos = "=0.12.1"
semver = "=1.0.28"
toml = "=0.5.11"
