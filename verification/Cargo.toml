[package]
name = "git_overview"
version = "0.1.0"
edition = "2021"
publish = false

[dependencies]
clap = "2"
colored = "2"
exitcode = "1"
git2 = { version = "*", default-features = false }
globwalk = "0.8"
rayon = "1"
