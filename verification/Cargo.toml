[package]
name = "citadel_internal_service"
version = "0.1.0"
edition = "2021"
publish = false

[dependencies]
async-trait = "0.1"
bincode2 = "=2.0.1"
bytes = { version = "1", features = ["serde"] }
console_error_panic_hook = "0.1"
console_log = "1"
dashmap = "6"
futures = "0.3"
futures-util = { version = "0.3", features = ["sink"] }
intersession-layer-messaging = "=0.2.2"
itertools = "0.13"
js-sys = "0.3"
log = "0.4"
once_cell = "1"
parking_lot = "0.12"
serde = { version = "1", features = ["derive"] }
serde_json = "1"
serde-wasm-bindgen = "0.6"
thiserror = "1"
tokio = { version = "1", features = ["net", "sync", "rt", "rt-multi-thread", "macros", "time", "io-util"] }
tokio-rustls = { version = "0.26", default-features = false, features = ["ring", "tls12"] }
tokio-tungstenite = "0.24"
tokio-util = { version = "0.7", features = ["codec"] }
uuid = { version = "=1.29.0", features = ["v4", "serde"] }
wasm-bindgen = "0.2"
wasm-bindgen-futures = "0.4"
wasmtimer = "0.4"
ws_stream_wasm = "0.7"

[dev-dependencies]
rcgen = "0.14"
