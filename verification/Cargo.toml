[package]
name = "modda"
version = "0.1.0"
edition = "2021"
publish = false

[dependencies]
url = "*"
percent-encoding = "*"
path-clean = "*"
tempfile = "*"
zip = "*"
flate2 = "*"
tar = "*"
fs_extra = "*"
globwalk = "*"
shellexpand = "*"
tokio = { version = "*", features = ["fs", "process", "rt"] }
handlebars = "*"
chrono = "*"
serde_json = "*"
serde = { version = "*", features = ["derive"] }
serde_yaml = "*"
serde_path_to_error = "*"
serde_with = "*"
anyhow = "*"
