[package]
name = "hello_server"
version = "0.1.0"
edition = "2021"
publish = false

[dependencies]
axum = "*"
tokio = { version = "*", features = ["macros", "rt-multi-thread", "signal", "net"] }
tower-http = { version = "*", features = ["trace", "fs"] }
tracing = "*"
tracing-subscriber = "*"
utoipa = "*"
utoipa-swagger-ui = { version = "*", features = ["axum"] }
