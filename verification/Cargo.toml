[package]
name = "beet"
version = "0.1.0"
edition = "2021"
publish = false

[dependencies]
petgraph = "=0.6.5"
bevy_ecs = "=0.15.4"
bevy_app = "=0.15.3"
bevy_reflect = "=0.15.3"
bincode = "=1.3.3"
serde = { version = "=1.0.229", features = ["derive"] }
serde_json = "1"
anyhow = "1"
js-sys = "=0.3.107"
wasm-bindgen = "=0.2.130"
web-sys = { version = "=0.3.107", features = ["Window", "Document", "Element", "HtmlElement", "HtmlDivElement", "Node", "MessageEvent", "EventTarget"] }
