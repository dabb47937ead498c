[package]
name = "depy"
version = "0.1.0"
edition = "2021"
publish = false

[dependencies]
serde = { version = "1", features = ["derive"] }
serde_json = "1"
clap = { version = "4.5", features = ["derive"] }
ureq = "2"
log = "0.4"
env_logger = "0.11"
copy_dir = "0.1"
fs_extra = "1"
path-absolutize = "3"
remove_dir_all = "0.8"
