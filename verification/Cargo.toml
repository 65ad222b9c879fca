[package]
name = "kursor"
version = "0.1.0"
edition = "2021"
publish = false

[dependencies]
anyhow = "1"
bytemuck = "1"
clap = { version = "4", features = ["derive"] }
env_logger = "0.11"
fontdue = "0.9"
libc = "0.2"
log = "0.4"
nix = { version = "0.30", features = ["fs", "ioctl", "poll", "signal", "user", "mman", "inotify"] }
tiny-skia = "0.11"
wayland-client = "0.31"
wayland-protocols = { version = "0.32", features = ["client", "unstable"] }
wayland-protocols-wlr = { version = "0.3", features = ["client"] }
windows-sys = { version = "0.60", features = ["Win32_Foundation", "Win32_UI_WindowsAndMessaging", "Win32_UI_Input_KeyboardAndMouse", "Win32_Graphics_Gdi", "Win32_System_LibraryLoader", "Win32_System_Console", "Win32_UI_Shell"] }
x11rb = { version = "0.13", features = ["randr", "shape"] }
