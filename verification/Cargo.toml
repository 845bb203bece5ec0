[package]
name = "ryob"
version = "0.1.0"
edition = "2021"
publish = false

[dependencies]
bcrypt = "*"
chrono = "*"
actix-web = { version = "*", default-features = false, features = ["macros", "cookies"] }
actix-session = { version = "*", features = ["cookie-session"] }
actix-files = "*"
diesel = { version = "*", default-features = false, features = ["postgres", "r2d2", "chrono"] }
r2d2 = "*"
handlebars = { version = "*", features = ["dir_source"] }
serde = { version = "*", features = ["derive"] }
serde_json = "*"
env_logger = "*"
log = "*"
