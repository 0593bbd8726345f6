[package]
name = "liquidators"
version = "0.1.0"
edition = "2021"
publish = false

[dependencies]
lz4_flex = "0.11"
uuid = "1"
rand = "0.9"
noise = "0.9"
serde = { version = "1", features = ["derive"] }
diff-struct = "0.5"
macroquad = "0.4"
chrono = "0.4"
