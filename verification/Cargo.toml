[package]
name = "war_lessons_bot"
version = "0.1.0"
edition = "2021"
publish = false

[dependencies]
displaydoc = "=0.2.7"
dotenv = "=0.15.0"
dptree = "=0.3.0"
envy = "=0.4.2"
hex = "=0.4.3"
humantime = "=2.4.0"
humantime-serde = "=1.1.1"
log = "=0.4.34"
once_cell = "=1.21.4"
pretty_env_logger = "=0.4.0"
rand = "=0.8.8"
serde = { version = "=1.0.229", features = ["derive"] }
sha2 = "=0.10.9"
sqlx = { version = "=0.6.3", default-features = false, features = ["postgres", "runtime-tokio-rustls", "time", "migrate", "macros"] }
systemd-journal-logger = "=0.5.1"
# Not named in the code: it comes in with teloxide, and its release 0.1.2 asks for a later
# compiler than this crate builds with.
takecell = "=0.1.1"
teloxide = { version = "=0.10.1", default-features = false, features = ["auto-send", "ctrlc_handler", "rustls"] }
thiserror = "=1.0.69"
time = "=0.3.55"
tokio = { version = "=1.54.1", features = ["macros", "rt-multi-thread"] }
toml = "=0.5.11"
