[package]
name = "profiler_env"
version = "0.1.0"
edition = "2021"
publish = false

[dependencies]
com = "0.6"
log = "0.4"
log4rs = { version = "1", default-features = false, features = ["console_appender", "rolling_file_appender", "compound_policy", "fixed_window_roller", "size_trigger", "pattern_encoder"] }
once_cell = "1"
serde = { version = "1", features = ["derive"] }
serde_yaml = "0.8"
