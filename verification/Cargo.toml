[package]
name = "compax"
version = "0.1.0"
edition = "2021"
publish = false

[dependencies]
bzip2 = "*"
clap = { version = "4", features = ["derive"] }
flate2 = "1"
sevenz-rust = { version = "*", features = ["compress"] }
tar = "0.4"
xz2 = "0.1"
zstd = "*"
