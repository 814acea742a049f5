[package]
name = "aquinas"
version = "0.1.0"
edition = "2021"
publish = false

[dependencies]
symphonia = { version = "*", features = ["mp3", "ogg", "vorbis", "flac", "wav", "pcm"] }
toml = "*"
serde = "*"
serde_derive = "*"
dirs = "*"
mp3-duration = "*"
ogg_metadata = "*"
lewton = "*"
audiotags = "*"
