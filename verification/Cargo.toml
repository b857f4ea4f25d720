[package]
name = "scanmap"
version = "0.1.0"
edition = "2021"
publish = false

[dependencies]
serde_json = "1"
chrono = "0.4"
serde = { version = "1", features = ["derive"] }
log = "0.4"
console_log = "1"
console_error_panic_hook = "0.1"
wasm-bindgen = "0.2"
wasm-bindgen-futures = "0.4"
js-sys = "0.3"
web-sys = { version = "0.3", features = ["Window", "Location", "History", "Document", "Element", "HtmlInputElement", "File", "FileList", "FormData", "Blob", "UrlSearchParams"] }
reqwest = { version = "0.12", default-features = false, features = ["json"] }
