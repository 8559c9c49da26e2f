[package]
name = "rustwide"
version = "0.1.0"
edition = "2021"
publish = false

[dependencies]
serde_json = "1"
toml = "0.5"
fs2 = "0.4"
walkdir = "2"
flate2 = "1"
tar = "0.4"
base64 = "0.13"
getrandom = "0.2"
nix = "0.26"
scopeguard = "1"
