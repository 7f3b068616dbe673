[package]
name = "map_browser"
version = "0.1.0"
edition = "2021"
publish = false

[dependencies]
crossterm = "=0.26.1"
indicatif = "=0.17.11"
reqwest = { version = "=0.11.27", default-features = false, features = ["json"] }
serde = { version = "=1.0.229", features = ["derive"] }
tokio = { version = "=1.53.2", default-features = false, features = ["macros", "rt"] }
tui = { version = "=0.19.0", default-features = false, features = ["crossterm"] }
unicode-width = "=0.1.14"
