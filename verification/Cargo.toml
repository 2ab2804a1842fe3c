[package]
name = "quetty"
version = "0.1.0"
edition = "2021"
publish = false

[dependencies]
serde_json = "*"
serde = { version = "*", features = ["derive"] }
tuirealm = "*"
tui-realm-stdlib = "*"
dirs = "*"
dotenv = "*"
clap = { version = "*", features = ["derive"] }
log = "*"
thiserror = "*"
config = { version = "*", default-features = false, features = ["toml"] }
fern = "*"
chrono = "*"
