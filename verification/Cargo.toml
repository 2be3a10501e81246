[package]
name = "glimpse"
version = "0.1.0"
edition = "2021"
publish = false

[dependencies]
serde = { version = "=1.0.229", features = ["derive"] }
serde_json = "=1.0.154"
tokio = { version = "=1.54.1", features = ["io-std", "io-util", "macros", "rt-multi-thread", "sync"] }
clap = { version = "=4.6.7", features = ["derive"] }
directories = "=5.0.1"
tracing = "=0.1.44"
tracing-subscriber = { version = "=0.3.23", features = ["env-filter", "fmt"] }
tracing-appender = "=0.2.5"
thiserror = "=1.0.69"
schemars = "=0.8.22"
anyhow = "=1.0.104"
windows = { version = "=0.58.0", features = ["Win32_Foundation", "Win32_UI_WindowsAndMessaging", "Win32_UI_Input_KeyboardAndMouse", "Win32_UI_HiDpi", "Win32_Graphics_Gdi", "Win32_System_LibraryLoader", "Win32_System_DataExchange", "Win32_System_Memory", "Win32_System_Ole", "Globalization", "Graphics_Imaging", "Media_Ocr", "Storage_Streams", "Foundation", "Foundation_Collections"] }
