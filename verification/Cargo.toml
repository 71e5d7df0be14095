[package]
name = "paste_misterio_me"
version = "0.1.0"
edition = "2021"
publish = false

[dependencies]
rocket = { version = "=0.5.2", features = ["json", "secrets", "uuid"] }
rocket_db_pools = { version = "=0.1.0", features = ["deadpool_postgres"] }
rocket_dyn_templates = { version = "=0.1.0", features = ["tera"] }
rocket-post-as-delete = "=0.1.1"
tokio-postgres = { version = "=0.7.18", features = ["with-uuid-1", "with-chrono-0_4"] }
rust-argon2 = "=1.0.1"
rand = "=0.8.8"
uuid = { version = "=1.29.0", features = ["v4", "serde"] }
chrono = { version = "=0.4.45", features = ["serde"] }
chrono-humanize = "=0.2.3"
serde = { version = "1", features = ["derive"] }
syntect = { version = "=5.3.0", default-features = false, features = ["parsing", "html", "dump-load", "yaml-load", "regex-fancy"] }
reqwest = { version = "=0.11.27", default-features = false, features = ["json", "rustls-tls"] }
clap = { version = "=3.2.25", features = ["derive"] }
clap_complete = "=3.2.5"
atty = "=0.2.14"
directories = "=4.0.1"
anyhow = "1"
tokio = { version = "1", features = ["macros", "rt-multi-thread"] }
