[package]
name = "pixi_global"
version = "0.1.0"
edition = "2021"
publish = false

[dependencies]
astral-reqwest-middleware = "=0.5.1"
clap = { version = "*", features = ["derive"] }
console = "*"
dirs = "=6.0.0"
human_bytes = "=0.4.3"
indexmap = "=2.14.2"
itertools = "=0.15.0"
miette = "*"
rattler_conda_types = { version = "=0.57.1", default-features = false }
rattler_lock = { version = "*", default-features = false }
rattler_networking = { version = "=0.34.2", default-features = false }
rattler_repodata_gateway = { version = "=0.36.6", default-features = false, features = ["sparse"] }
rattler_solve = { version = "=11.2.3", default-features = false, features = ["resolvo"] }
regex = "=1.13.1"
reqwest = { version = "=0.13.5", default-features = false }
serde = { version = "=1.0.229", features = ["derive"] }
serde_json = "=1.0.154"
tabwriter = "=1.4.1"
tokio = { version = "=1.54.1", features = ["fs", "rt-multi-thread"] }

[dev-dependencies]
bytes = "=1.12.1"
