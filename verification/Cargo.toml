[package]
name = "led_server"
version = "0.1.0"
edition = "2021"
publish = false

[dependencies]
anyhow = "*"
embedded-graphics = "*"
embedded-svc = "*"
esp-idf-hal = "*"
esp-idf-svc = "*"
log = "*"
ssd1306 = "*"
