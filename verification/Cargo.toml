[package]
name = "git-branch-status"
version = "0.1.0"
edition = "2021"
publish = false

[dependencies]
git2 = { version = "*", default-features = false }
clap = "4"
ansi_term = "0.12"
