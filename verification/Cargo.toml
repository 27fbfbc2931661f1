[package]
name = "parang"
version = "0.1.0"
edition = "2021"
publish = false

[dependencies]
compact_str = "*"
hashbrown = "*"
unicode-normalization = "*"
lopdf = "*"
log = "*"
thiserror = "*"
memmap2 = "*"
rayon = "*"
env_logger = "*"
mimalloc = "*"
clap = { version = "*", features = ["derive"] }
