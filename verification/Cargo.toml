[package]
name = "roar_display"
version = "0.1.0"
edition = "2021"
publish = false

[dependencies]
embedded-graphics = "*"
ssd1306 = "*"
esp-idf-hal = "*"
esp-idf-svc = "*"
esp-idf-sys = "*"
