[package]
name = "linear_tasks"
version = "0.1.0"
edition = "2021"
publish = false

[dependencies]
chrono = "0.4"
cynic = { version = "3", features = ["http-reqwest"] }
dotenvy = "0.15"
reqwest = "*"
simple-error = "*"
tokio = { version = "1", features = ["macros", "rt-multi-thread"] }
