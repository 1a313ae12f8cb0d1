[package]
name = "page_router"
version = "0.1.0"
edition = "2021"
publish = false

[dependencies]
rocket = "=0.5.1"
rocket_dyn_templates = { version = "*", features = ["tera"] }
