[package]
name = "maschine3_hal"
version = "0.1.0"
edition = "2021"
publish = false

[dependencies]
rusb = "=0.9.4"
hidapi = { version = "=2.6.7", default-features = false, features = ["linux-native-basic-udev"] }
thiserror = "=1.0.69"
windows = { version = "=0.52.0", features = ["Win32_Foundation", "Win32_Security", "Win32_Storage_FileSystem", "Win32_System_IO", "Win32_System_Pipes"] }
