[package]
name = "pokedex"
version = "0.1.0"
edition = "2021"
publish = false

[dependencies]
rusqlite = { version = "*", features = ["bundled"] }
ureq = { version = "2", features = ["json"] }
serde_json = "*"
serde = { version = "*", features = ["derive"] }
clap = "*"
dialoguer = "*"
rouille = "*"
