[package]
name = "scrollport"
version = "0.1.0"
edition = "2021"
publish = false

[dependencies]
peniko = "=0.1.1"
kurbo = "=0.9.5"
taffy = "=0.3.19"
floem_reactive = "=0.1.0"
floem_renderer = "=0.1.0"
floem-peniko = "=0.1.0"
