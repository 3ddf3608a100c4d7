[package]
name = "envmon"
version = "0.1.0"
edition = "2021"
publish = false

[dependencies]
bme680 = "=0.6.0"
lcd1602-driver = "*"
log = "0.4"
panic-halt = "*"
