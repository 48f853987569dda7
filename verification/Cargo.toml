[package]
name = "oxidisk"
version = "0.1.0"
edition = "2021"
publish = false

[dependencies]
ratatui = "0.29"
crossterm = "0.28"
throbber-widgets-tui = "0.8"
rfd = { version = "0.15", default-features = false, features = ["xdg-portal", "tokio"] }
windows = { version = "0.52", features = ["implement", "Win32_Foundation", "Win32_Storage_Imapi", "Win32_System_Com", "Win32_System_Ole", "Win32_System_Variant", "Win32_UI_Shell", "Win32_UI_Shell_PropertiesSystem"] }
