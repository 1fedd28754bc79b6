[package]
name = "agentos"
version = "0.1.0"
edition = "2021"
publish = false

[dependencies]
anyhow = "=1.0.104"
base64 = "=0.22.1"
clap = { version = "=4.6.7", features = ["derive"] }
fuser = { version = "=0.15.1", default-features = false }
libc = "=0.2.191"
objc2 = "=0.6.5"
objc2-app-kit = { version = "=0.3.2", default-features = false, features = ["std", "NSEvent", "NSResponder", "NSView", "NSTrackingArea", "objc2-core-foundation", "objc2-quartz-core"] }
objc2-foundation = { version = "=0.3.2", default-features = false, features = ["std", "NSDictionary", "NSGeometry", "NSObject", "objc2-core-foundation"] }
objc2-quartz-core = { version = "=0.3.2", default-features = false, features = ["std", "CALayer", "CATransaction"] }
serde = { version = "=1.0.229", features = ["derive"] }
serde_json = "=1.0.154"
tracing = "=0.1.44"
