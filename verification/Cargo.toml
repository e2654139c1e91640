[package]
name = "pulsedoc"
version = "0.1.0"
edition = "2021"
publish = false

[dependencies]
chrono = "*"
dirs-next = "*"
docx-handlebars = "*"
inquire = "*"
rfd = "*"
serde = { version = "*", features = ["derive"] }
serde_json = "*"
