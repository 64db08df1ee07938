[package]
name = "wasmerenv"
version = "0.1.0"
edition = "2021"
publish = false

[dependencies]
anyhow = "*"
atty = "*"
chrono = "*"
clap = { version = "*", features = ["derive"] }
comfy-table = "*"
directories = "*"
dirs = "*"
flate2 = "*"
indicatif = "*"
is_executable = "*"
reqwest = { version = "*", default-features = false, features = ["blocking", "json"] }
semver = "*"
semver-eq = "*"
serde = { version = "*", features = ["derive"] }
symlink = "*"
tar = "*"
which = "*"
