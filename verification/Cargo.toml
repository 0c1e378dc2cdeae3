[package]
name = "bevy_async_task"
version = "0.11.0"
edition = "2021"
publish = false

[dependencies]
futures = "0.3"
futures-timer = "3"
web-time = "1"
async-compat = "0.2"
thiserror = "2"
bevy_ecs = "0.17"
bevy_tasks = "0.17"
bevy_platform = "0.17"

[dev-dependencies]
tokio = { version = "1", features = ["rt", "macros", "time"] }
