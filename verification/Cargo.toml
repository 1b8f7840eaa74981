[package]
name = "repo_updater"
version = "0.1.0"
edition = "2021"
publish = false

[dependencies]
regex = "1"
git2 = { version = "0.18", default-features = false }
reqwest = { version = "0.11", default-features = false }
walkdir = "2"
clap = "3"
dotenv = "0.15"
tokio = { version = "1", features = ["macros", "rt-multi-thread"] }
