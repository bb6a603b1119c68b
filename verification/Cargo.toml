[package]
name = "widget_theme"
version = "0.1.0"
edition = "2021"
publish = false

[dependencies]
iced_style = "=0.5.1"
iced_core = "=0.5.0"
