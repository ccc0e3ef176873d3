[package]
name = "obs_replay"
version = "0.1.0"
edition = "2021"
publish = false

[dependencies]
obws = { version = "=0.15.0", features = ["events"] }
tokio = { version = "=1.54.1", features = ["net", "time", "sync", "macros", "rt-multi-thread"] }
sonic-rs = "=0.5.10"
serde = { version = "=1.0.229", features = ["derive"] }
serde_json = "=1.0.154"
futures-util = "=0.3.34"
time = "=0.3.55"
uuid = "=1.29.0"
anyhow = "=1.0.104"
log = "=0.4.35"
kira = "=0.9.6"
once_cell = "=1.21.4"
windows = { version = "=0.54.0", features = ["Win32_Foundation", "Win32_UI_WindowsAndMessaging", "Win32_Graphics_Gdi", "Win32_System_LibraryLoader"] }
