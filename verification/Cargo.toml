[package]
name = "render_core"
version = "0.1.0"
edition = "2021"
publish = false

[dependencies]
glam = "=0.30.10"
flecs_ecs = "=0.2.2"
sdl3-sys = "=0.7.2"
uuid = { version = "=1.27.0", features = ["v4"] }
