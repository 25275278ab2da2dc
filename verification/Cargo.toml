[package]
name = "skal"
version = "0.1.0"
edition = "2021"
publish = false

[dependencies]
chrono = { version = "=0.4.45", default-features = false, features = ["std"] }
futures = "=0.3.34"
windows = { version = "=0.57.0", features = ["ApplicationModel", "Foundation", "Foundation_Collections", "UI_Notifications", "UI_Notifications_Management"] }
winsafe = { version = "=0.0.29", features = ["gui"] }
