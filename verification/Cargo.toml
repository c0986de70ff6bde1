[package]
name = "winshape"
version = "0.1.0"
edition = "2021"
publish = false

[dependencies]
libc = "=0.2.191"
winapi = { version = "=0.3.9", features = ["winuser", "libloaderapi", "errhandlingapi", "winbase", "ntdef", "minwindef", "windef"] }
windows = { version = "=0.58.0", features = ["implement", "Foundation", "Foundation_Collections", "Foundation_Numerics", "Graphics", "System", "UI", "UI_Composition", "UI_Composition_Desktop", "Win32_Foundation", "Win32_Graphics_Direct2D", "Win32_Graphics_Direct2D_Common", "Win32_System_WinRT", "Win32_System_WinRT_Composition", "Win32_System_WinRT_Graphics_Direct2D"] }
