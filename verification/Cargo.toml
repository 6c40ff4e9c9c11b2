[package]
name = "todo_app"
version = "0.1.0"
edition = "2021"
publish = false

[dependencies]
sha2 = "=0.10.9"
rusqlite = { version = "=0.29.0", features = ["bundled"] }
dioxus = "=0.4.3"
dioxus-router = "=0.4.3"
