[package]
name = "excel_deno_bridge"
version = "0.1.0"
edition = "2021"
publish = false

[dependencies]
serde_json = "=1.0.154"
widestring = "=1.2.1"
once_cell = "1"
tokio = { version = "1", features = ["rt"] }
reqwest = { version = "0.11", default-features = false, features = ["blocking", "rustls-tls"] }
windows = { version = "0.51", features = ["Win32_Foundation", "Win32_System_Com", "Win32_System_Ole", "Win32_System_Variant", "Win32_UI_WindowsAndMessaging"] }
