[package]
name = "soql_generator"
version = "0.1.0"
edition = "2021"
publish = false

[dependencies]
chrono = { version = "=0.4.45", features = ["serde"] }
reqwest = { version = "=0.13.5", default-features = false, features = ["json", "form"] }
rustyline = "=18.0.1"
serde = { version = "=1.0.229", features = ["derive"] }
serde_json = "=1.0.151"
termion = "=4.0.6"
tokio = { version = "=1.53.2", features = ["rt-multi-thread", "macros"] }
urlencoding = "=2.1.3"
webbrowser = "=1.2.4"
