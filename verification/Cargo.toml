[package]
name = "circuit_sim"
version = "0.1.0"
edition = "2021"
publish = false

[dependencies]
rand = "0.8"
pwhash = "1"
chrono = "0.4"
serde = { version = "1", features = ["derive"] }
serde_json = "1"
wasm-bindgen = { version = "0.2", features = ["serde-serialize"] }
js-sys = "0.3"
web-sys = { version = "0.3", features = ["CanvasRenderingContext2d", "Document", "DomTokenList", "Element", "Event", "EventTarget", "History", "HtmlCanvasElement", "HtmlDivElement", "HtmlElement", "HtmlInputElement", "HtmlLiElement", "HtmlSpanElement", "HtmlUListElement", "KeyboardEvent", "Location", "MouseEvent", "Node", "ProgressEvent", "UrlSearchParams", "WheelEvent", "Window", "XmlHttpRequest", "XmlHttpRequestEventTarget", "console"] }
console_error_panic_hook = "0.1"
wee_alloc = "0.4"
actix-web = "3"
actix-files = "0.5"
actix-session = "0.4"
actix-rt = "1"
diesel = { version = "1.4", features = ["sqlite", "r2d2"] }
r2d2 = "0.8"
env_logger = "0.8"
