[package]
name = "cli_rhythm"
version = "0.1.0"
edition = "2021"
publish = false

[dependencies]
audiotags = "0.5"
crossterm = "0.28"
dirs = "6"
flume = { version = "0.11", default-features = false }
image = { version = "0.25", default-features = false, features = ["bmp", "gif", "jpeg", "png", "tiff"] }
mp3-metadata = "*"
rand = "0.9"
ratatui = "0.29"
ratatui-image = { version = "5.0.0", default-features = false }
textwrap = "0.16"
uuid = { version = "1", features = ["v5"] }
