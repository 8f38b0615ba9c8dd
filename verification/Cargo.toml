[package]
name = "kazeta_bios"
version = "0.1.0"
edition = "2021"
publish = false

[dependencies]
regex = "1"
chrono = { version = "0.4", default-features = false, features = ["alloc", "clock"] }
rand = "0.8"
serde = { version = "1", features = ["derive"] }
toml = "0.9"
dirs = "6"
whoami = "1"
walkdir = "2"
tar = "0.4"
zip = { version = "2", default-features = false, features = ["deflate"] }
reqwest = { version = "0.12", default-features = false, features = ["blocking", "json"] }
macroquad = { version = "0.4", default-features = false }
once_cell = "1"
futures = "0.3"
