[package]
name = "video_player"
version = "0.1.0"
edition = "2021"
publish = false

[dependencies]
js-sys = "0.3"
once_cell = "1"
serde = { version = "1", features = ["derive"] }
serde-wasm-bindgen = "0.6"
wasm-bindgen = "0.2"
wasm-bindgen-futures = "0.4"
web-sys = { version = "0.3", features = ["Blob", "Document", "DomRect", "Element", "Event", "EventTarget", "HtmlElement", "HtmlMediaElement", "HtmlVideoElement", "MouseEvent", "Node", "NodeList", "Request", "RequestInit", "RequestMode", "Response", "Url", "Window", "console"] }
