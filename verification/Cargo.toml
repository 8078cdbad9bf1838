[package]
name = "db_mgr"
version = "0.1.0"
edition = "2021"
publish = false

[dependencies]
mysql = "*"
num-traits = "0.2"
redis = { version = "*", features = ["cluster"] }
rusqlite = { version = "*", features = ["bundled"] }
time = "*"
url = "2"
