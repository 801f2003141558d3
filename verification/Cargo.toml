[package]
name = "voxel_world"
version = "0.1.0"
edition = "2021"
publish = false

[dependencies]
bevy = { version = "=0.16.1", default-features = false, features = ["std", "async_executor", "bevy_asset", "bevy_render", "bevy_pbr", "bevy_core_pipeline", "bevy_window", "bevy_state", "bevy_log", "multi_threaded"] }
bevy_rapier3d = { version = "0.30", default-features = false, features = ["dim3"] }
noise = "=0.9.0"
serde = { version = "=1.0.229", features = ["derive"] }
toml = "=0.8.23"
wasm-bindgen = "0.2"
web-sys = { version = "0.3", features = ["Document", "Element", "HtmlElement", "Window", "EventTarget", "Event"] }
