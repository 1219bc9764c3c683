[package]
name = "windortent"
version = "0.1.0"
edition = "2021"
publish = false

[dependencies]
windows-core = "0.61"
windows = { version = "0.61", features = ["ApplicationModel", "Foundation", "Foundation_Collections", "Management_Deployment", "Win32_Foundation", "Win32_Security", "Win32_Security_Authorization", "Win32_System_Antimalware", "Win32_System_ApplicationInstallationAndServicing", "Win32_System_Com", "Win32_System_Registry", "Win32_System_Threading", "Win32_UI_Shell", "Win32_UI_WindowsAndMessaging"] }
tokio = { version = "1", features = ["fs", "io-util", "macros", "process", "rt"] }
serde = { version = "1", features = ["derive"] }
serde-xml-rs = "0.8"
toml = "0.8"
rhai = "1"
zip = { version = "2", default-features = false, features = ["deflate"] }
