[package]
name = "quic_client"
version = "0.1.0"
edition = "2021"
publish = false

[dependencies]
console_error_panic_hook = "=0.1.7"
console_log = "=1.1.0"
log = "=0.4.34"
quinn = "=0.11.12"
solana-account = "=2.2.1"
solana-connection-cache = "=2.3.13"
solana-define-syscall = "=2.3.0"
solana-keypair = "=2.2.3"
solana-loader-v4-interface = "=2.2.1"
solana-metrics = "=2.3.13"
solana-pubkey = "=2.4.0"
solana-sdk-ids = "=2.2.1"
solana-signer = "=2.2.1"
solana-streamer = "=2.3.13"
solana-system-interface = "=1.0.0"
solana-tls-utils = "=2.3.13"
tokio = { version = "=1.54.1", features = ["rt-multi-thread", "sync", "time"] }
wasm-bindgen = "=0.2.129"
