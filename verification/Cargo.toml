[package]
name = "vpin_dialog"
version = "0.1.0"
edition = "2021"
publish = false

[dependencies]
qt_core = "=0.5.0"
qt_widgets = "=0.5.0"
