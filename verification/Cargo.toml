[package]
name = "status_line"
version = "0.1.0"
edition = "2021"
publish = false

[dependencies]
sysinfo = "*"
chrono = "*"
battery = "*"
jay-config = "*"
uom = "*"
