[package]
name = "cc_unzip_media"
version = "0.1.0"
edition = "2021"
publish = false

[dependencies]
rpassword = "*"
ssh2 = "*"
unrar = "*"
zip = "*"
