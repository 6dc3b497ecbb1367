[package]
name = "article_player"
version = "0.1.0"
edition = "2021"
publish = false

[dependencies]
gloo-utils = "0.2"
js-sys = "0.3"
serde = { version = "1", features = ["derive"] }
tracing = "0.1"
wasm-bindgen = "0.2"
wasm-bindgen-futures = "0.4"
web-sys = { version = "0.3", features = ["Blob", "BlobPropertyBag", "Document", "Element", "HtmlAudioElement", "HtmlMediaElement", "HtmlSelectElement", "MediaMetadata", "MediaPositionState", "MediaSession", "MediaSessionAction", "MediaSessionActionDetails", "Navigator", "Url", "Window"] }
yew = "0.21"
