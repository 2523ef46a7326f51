[package]
name = "stabilizer"
version = "0.1.0"
edition = "2021"
publish = false

[dependencies]
esp-idf-svc = "*"
embedded-graphics = "0.8"
ssd1306 = "*"
log = "0.4"
