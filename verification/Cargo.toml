[package]
name = "hashall"
version = "0.1.0"
edition = "2021"
publish = false

[dependencies]
anyhow = "*"
bzip2 = "*"
clap = { version = "*", features = ["derive"] }
digest = "*"
env_logger = "*"
flate2 = "*"
log = "*"
md-5 = "*"
parse-size = "*"
sha1 = "*"
tar = "*"
walkdir = "*"
xz2 = "*"
zip = "*"
zstd = "*"
