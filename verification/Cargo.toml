[package]
name = "qmk_led_control"
version = "0.1.0"
edition = "2021"
publish = false

[dependencies]
hidapi = "*"
ratatui = "*"
