[package]
name = "file_transfer"
version = "0.1.0"
edition = "2021"
publish = false

[dependencies]
sha2 = "=0.11.1"
roxmltree = "=0.21.2"
uuid = { version = "=1.29.0", features = ["v4"] }
opendal = { version = "=0.59.5", features = ["services-ftp", "services-sftp", "services-s3", "services-webdav", "services-webhdfs", "services-hdfs-native", "services-memory"] }
tokio = { version = "=1.54.1", features = ["fs", "io-util", "macros", "rt", "rt-multi-thread", "sync", "time"] }
tokio-util = { version = "=0.7.20", features = ["compat"] }
futures = "=0.3.34"
bytes = "=1.12.1"
serde = { version = "=1.0.229", features = ["derive"] }
serde_json = "=1.0.154"
cap-std = "=4.0.3"
cap-fs-ext = "=4.0.3"
rustix = { version = "=1.1.6", features = ["fs"] }
log = "=0.4.35"
windows-sys = { version = "=0.61.2", features = ["Win32_Foundation", "Win32_Storage_FileSystem"] }
