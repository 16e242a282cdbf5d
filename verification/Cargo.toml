[package]
name = "player_session"
version = "0.1.0"
edition = "2021"
publish = false

[dependencies]
md5 = "0.7"
byteorder = "1"
hematite-nbt = "0.5"
serde = { version = "1", features = ["derive"] }
serde_json = "1"
bincode = "1"
log = "0.4"
