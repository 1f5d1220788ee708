[package]
name = "ruststream-core"
version = "1.0.0"
edition = "2021"
publish = false

[dependencies]
clap = { version = "4", features = ["derive"] }
dirs = "5"
env_logger = "0.11"
ffmpeg-next = "7"
io-uring = "0.6"
libc = "0.2"
log = "0.4"
mimalloc = "0.1"
num_cpus = "1"
parking_lot = "0.12"
rayon = "1"
redb = "2"
serde = { version = "1", features = ["derive"] }
serde_json = "1"
symphonia = { version = "0.5", features = ["mp3", "aac", "wav", "flac", "isomp4"] }
tokio = { version = "1", features = ["rt-multi-thread"] }

[dev-dependencies]
tempfile = "3"
