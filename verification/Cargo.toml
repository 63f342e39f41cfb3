[package]
name = "committed"
version = "1.0.0"
edition = "2021"
publish = false

[dependencies]
unicode-segmentation = "1"
imperative = "1"
unicase = "2"
git-conventional = "*"
regex = "1"
regex-syntax = "0.8"
clap = { version = "4", features = ["derive"] }
clap-verbosity-flag = "*"
colorchoice-clap = "1"
anstream = "0.6"
anstyle = "1"
git2 = { version = "*", default-features = false }
toml = "*"
serde = { version = "1", features = ["derive"] }
serde_json = "1"
proc-exit = "2"
human-panic = "2"
env_logger = "*"
log = "0.4"
grep-cli = "0.1"
anyhow = "1"
itertools = "*"
