[package]
name = "lava_timer"
version = "0.1.0"
edition = "2021"
publish = false

[dependencies]
tauri = { version = "2", default-features = false, features = ["wry", "tray-icon"] }
tauri-plugin-positioner = { version = "2", features = ["tray-icon"] }
objc2-app-kit = { version = "0.3", default-features = false, features = ["std", "block2", "NSResponder", "NSView", "NSScrollView", "NSClipView", "NSWorkspace"] }
objc2-foundation = { version = "0.3", default-features = false, features = ["std", "block2", "NSArray", "NSGeometry", "NSNotification", "NSOperation", "NSString", "NSDistributedNotificationCenter"] }
block2 = "0.6"
