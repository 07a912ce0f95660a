[package]
name = "git-x"
version = "0.1.0"
edition = "2021"
publish = false

[dependencies]
console = "*"
fuzzy-matcher = "*"
chrono = "*"
dialoguer = { version = "*", features = ["fuzzy-select"] }
atty = "*"
clap = { version = "*", features = ["derive"] }
clap_complete = "*"
tokio = { version = "*", features = ["full"] }
futures = "*"
rayon = "*"
