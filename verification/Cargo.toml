[package]
name = "pseudo_cd_player"
version = "0.1.0"
edition = "2021"
publish = false

[dependencies]
anyhow = "1"
byteorder = "1"
clap = { version = "4", features = ["derive"] }
cpal = "0.15"
fern = "0.6"
humantime = "2"
log = "0.4"
once_cell = "1"
ratatui = "0.27"
regex = "1"
serde = { version = "1", features = ["derive"] }
serde_json = "1"
signal-hook = "0.3"
