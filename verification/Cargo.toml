[package]
name = "loco_gen"
version = "0.1.0"
edition = "2021"
publish = false

[dependencies]
toml = "*"
git2 = "*"
rrgen = "*"
serde_json = "*"
