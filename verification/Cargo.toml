[package]
name = "rizzoo"
version = "0.1.0"
edition = "2021"
publish = false

[dependencies]
mcu-material-color = "*"
sha2 = "0.10"
md5 = "*"
rand = "0.9"
winnow = "0.7"
serde = { version = "1", features = ["derive"] }
serde_json = "1"
toml = "*"
clap = { version = "4", features = ["derive"] }
ctrlc = "*"
dialoguer = "*"
directories = "*"
env_logger = "*"
log = "*"
notify = "*"
tabled = "*"
thiserror = "*"
ureq = "3"
yansi = "1"
image = { version = "0.25", default-features = false, features = ["png", "jpeg", "webp", "gif", "bmp", "tiff"] }
