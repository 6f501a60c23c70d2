[package]
name = "pkg_builder"
version = "0.1.0"
edition = "2021"
publish = false

[dependencies]
shellexpand = "3"
sha1 = "0.10"
sha2 = "0.10"
regex = "1"
cargo_metadata = "*"
chrono = "0.4"
toml_edit = "*"
toml = "*"
serde = { version = "1", features = ["derive"] }
serde_json = "1"
clap = { version = "4", features = ["derive"] }
env_logger = "*"
log = "0.4"
tempfile = "3"
filetime = "0.2"
dirs = "*"
dialoguer = "*"
rand = "0.8"
git2 = { version = "*", default-features = false }
eyre = "0.6"
thiserror = "*"
