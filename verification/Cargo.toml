[package]
name = "esp_idf_hal"
version = "0.1.0"
edition = "2021"
publish = false

[dependencies]
esp-idf-bindgen = "*"
macaddr = "1"
