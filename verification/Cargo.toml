[package]
name = "album_tagger"
version = "0.1.0"
edition = "2021"
publish = false

[dependencies]
inquire = "*"
ratatui = "*"
ratatui-explorer = "*"
serde = { version = "*", features = ["derive"] }
snafu = "*"
toml = "*"
