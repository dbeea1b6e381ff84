[package]
name = "custom_extension"
version = "0.1.0"
edition = "2021"
publish = false

[dependencies]
ext-php-rs = "*"
