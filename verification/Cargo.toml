[package]
name = "cdj3k_emu"
version = "0.1.0"
edition = "2021"
publish = false

[dependencies]
flate2 = "1"
lz4_flex = "0.11"
crc = "3"
serde_json = "1"
clap = { version = "4", features = ["derive"] }
libc = "0.2"
memmap2 = "0.9"
eframe = { version = "0.29", default-features = false, features = ["glow", "default_fonts", "x11"] }
rfd = { version = "0.15", default-features = false, features = ["xdg-portal", "async-std"] }
puffin = "0.19"
puffin_http = "0.16"
