[package]
name = "bill_qr"
version = "0.1.0"
edition = "2021"
publish = false

[dependencies]
image = "=0.24.9"
rqrr = "=0.5.2"
reqwest = { version = "=0.11.27", features = ["json"] }
serde = { version = "=1.0.229", features = ["derive"] }
tokio = { version = "=1.54.1", features = ["rt-multi-thread", "macros", "fs"] }
teloxide = { version = "=0.9.2", features = ["macros", "auto-send"] }
# Not used directly: teloxide-core takes any takecell 0.1, and 0.1.2 asks for a newer compiler.
takecell = "=0.1.1"
dptree = "=0.2.1"
log = "=0.4.34"
stderrlog = "=0.5.4"
rocket = { version = "=0.5.2", features = ["json"] }

[dev-dependencies]
qrcode = { version = "=0.12.0", default-features = false }
