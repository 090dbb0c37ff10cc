[package]
name = "twilight_sword"
version = "0.1.0"
edition = "2021"
publish = false

[dependencies]
chrono = "0.4"
cuid2 = "0.1"
diesel = { version = "2", features = ["postgres", "r2d2", "chrono"] }
kdl = "6"
miette = "7"
tokio = { version = "1", features = ["full"] }
tracing = "0.1"
tracing-subscriber = "0.3"
twilight-cache-inmemory = "0.16"
twilight-gateway = "0.16"
twilight-http = "0.16"
twilight-mention = "0.16"
twilight-model = "0.16"
twilight-util = { version = "0.16", features = ["builder", "permission-calculator", "snowflake"] }
twilight-validate = "0.16"
type-map = "0.5"
