[package]
name = "youtube_irc_bot"
version = "0.1.0"
edition = "2021"
publish = false

[dependencies]
regex = "1"
bytecount = "0.6"
htmlescape = "0.3"
itertools = "0.8"
irc = "0.13"
toml = "0.5"
serde = { version = "1", features = ["derive"] }
structopt = "0.3"
directories = "2"
reqwest = "0.9"
rand = "0.7"
mime = "0.3"
failure = "0.1"
