[package]
name = "narrative_director"
version = "0.1.0"
edition = "2021"
publish = false

[dependencies]
cpal = "0.15"
serde = { version = "1", features = ["derive"] }
serde_json = "1"
dirs = "5"

[dev-dependencies]
hound = "3.5"
