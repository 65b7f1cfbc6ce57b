[package]
name = "gmutils"
version = "0.8.2"
edition = "2021"
publish = false

[dependencies]
base64 = "0.22"
bytes = "*"
clap = { version = "*", default-features = false, features = ["std", "derive", "help", "usage", "error-context"] }
crossterm = "*"
dhttp-home = { version = "*", features = ["manage"] }
dhttp-identity = "*"
futures = "*"
http = "1"
http-body-util = "*"
hyper = { version = "1", features = ["http1", "server", "client"] }
hyper-util = { version = "*", features = ["tokio"] }
inquire = { version = "*", default-features = false, features = ["crossterm"] }
p384 = { version = "0.13", features = ["pkcs8", "pem"] }
pkcs8 = { version = "0.10", features = ["pem", "std"] }
tracing = "*"
whoami = "1"
chrono = "*"
nix = { version = "*", features = ["user", "process", "signal"] }
socket2 = "*"
indicatif = "*"
qrcode = { version = "*", default-features = false }
rankey = "*"
reqwest = { version = "*", default-features = false, features = ["rustls-no-provider", "json"] }
rustls = { version = "0.23", default-features = false, features = ["ring", "std"] }
serde = { version = "1", features = ["derive"] }
serde_json = "1"
time = "0.3"
tokio = { version = "1", features = ["full"] }
urlencoding = "2"
x509-parser = "*"
