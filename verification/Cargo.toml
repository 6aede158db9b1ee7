[package]
name = "btmeister"
version = "0.6.0"
edition = "2021"
publish = false

[dependencies]
clap = { version = "*", features = ["derive"] }
clap_complete = "*"
serde = { version = "*", features = ["derive"] }
serde_json = "*"
ignore = "*"
path-matchers = "*"
tar = "*"
zip = { version = "*", default-features = false, features = ["deflate"] }
flate2 = "*"
bzip2 = "*"
xz2 = { version = "*", features = ["static"] }
zstd = "*"
fs-err = "*"

[dev-dependencies]
tempfile = "*"
