[package]
name = "csi"
version = "0.1.0"
edition = "2021"
publish = false

[dependencies]
anyhow = "1"
async-stream = "*"
base64 = "0.22"
futures = "*"
macaddr = "1"
ndarray = "*"
num-complex = "0.4"
pcap-file-tokio = "*"
rustfft = "6"
thiserror = "1"
tokio = { version = "1", features = ["io-util", "time", "fs"] }
uom = "*"
