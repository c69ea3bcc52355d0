[package]
name = "badpiggies_editor"
version = "0.1.0"
edition = "2021"
publish = false

[dependencies]
aes = "=0.9.4"
cbc = "=0.2.1"
hmac = "=0.13.0"
sha1 = "=0.11.0"
flate2 = "=1.1.10"
tar = "=0.4.46"
serde_yaml = "=0.9.34"
regex = "1"
