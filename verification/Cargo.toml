[package]
name = "todo_app"
version = "0.1.0"
edition = "2021"
publish = false

[dependencies]
uuid = "1"
serde = { version = "1", features = ["derive"] }
serde_json = "1"
once_cell = "1"
actix-web = "4"
actix-cors = "0.7"
cdrs-tokio = "8"
