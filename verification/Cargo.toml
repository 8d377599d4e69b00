[package]
name = "livewatch"
version = "0.1.0"
edition = "2021"
publish = false

[dependencies]
notify-debouncer-full = "*"
tera-template-macro = "*"
tower-livereload = "*"
