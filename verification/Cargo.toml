[package]
name = "http_shim"
version = "0.1.0"
edition = "2021"
publish = false

[dependencies]
mime = "*"
serde = { version = "*", features = ["derive"] }
serde_json = "*"
serde_html_form = "*"
serde_path_to_error = "*"
anyhow = "*"
async-trait = "*"
lambda_http = "*"
aws-config = { version = "*", features = ["behavior-version-latest"] }
aws-sdk-ssm = "*"
