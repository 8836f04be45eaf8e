[package]
name = "doxle"
version = "0.1.0"
edition = "2021"
publish = false

[dependencies]
serde = { version = "=1.0.229", features = ["derive"] }
serde_json = "=1.0.154"
reqwest = { version = "=0.12.28", default-features = false, features = ["json"] }
gloo-net = { version = "=0.6.0", default-features = false, features = ["http", "json"] }
gloo-timers = { version = "=0.3.0", features = ["futures"] }
futures = "=0.3.34"
js-sys = "=0.3.107"
wasm-bindgen = "=0.2.130"
wasm-bindgen-futures = "=0.4.80"
web-sys = { version = "=0.3.107", features = ["Window", "Document", "Element", "HtmlElement", "HtmlInputElement", "HtmlCanvasElement", "CanvasRenderingContext2d", "Location", "Storage", "MediaQueryList", "File", "Blob", "FileReader", "Event", "EventTarget", "KeyboardEvent", "UrlSearchParams", "console"] }
web-time = "=1.1.0"
tracing = "=0.1.44"
tracing-wasm = "=0.2.1"
