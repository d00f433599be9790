[package]
name = "worumtop"
version = "0.1.0"
edition = "2021"
rust-version = "1.95"
publish = false

[dependencies]
scraper = "=0.29.0"
rand = "=0.8.8"
teloxide = { version = "=0.17.0", features = ["macros"] }
tokio = { version = "1", features = ["rt-multi-thread", "macros"] }
reqwest = "=0.12.28"
dotenv = "0.15"
log = "0.4"
pretty_env_logger = "0.5"
dptree = "=0.5.1"
# Not used by this crate. teloxide-core asks for takecell 0.1, and 0.1.2 needs
# a newer compiler than the rust-version above; this line holds it at 0.1.1.
takecell = "=0.1.1"
