[package]
name = "p4cli"
version = "0.1.0"
edition = "2021"
publish = false

[dependencies]
zstd = "*"
p4cli-20251-linux-arm64 = "*"
p4cli-20251-linux-x64 = "*"
p4cli-20251-mac-arm64 = "*"
p4cli-20251-mac-x64 = "*"
p4cli-20251-win-x64 = "*"
