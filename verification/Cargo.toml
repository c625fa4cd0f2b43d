[package]
name = "cognito_auth"
version = "0.1.0"
edition = "2021"
publish = false

[dependencies]
actix-rt = "=2.15.0"
actix-web = { version = "=4.18.1", default-features = false, features = ["cookies", "macros"] }
aws-config = { version = "=1.13.0", default-features = false, features = ["behavior-version-latest", "default-https-client", "rt-tokio"] }
aws-sdk-cognitoidentityprovider = { version = "=1.142.0", default-features = false, features = ["behavior-version-latest", "default-https-client", "rt-tokio"] }
base64 = "=0.21.7"
dotenv = "=0.15.0"
hmac = "=0.12.1"
jsonwebtokens = "=1.2.0"
jsonwebtokens-cognito = "=0.1.1"
reqwest = { version = "=0.11.27", default-features = false }
serde = { version = "=1.0.229", features = ["derive"] }
sha2 = "=0.10.9"
