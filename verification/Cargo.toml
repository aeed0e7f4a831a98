[package]
name = "k8s-aws-nlb-proxy-protocol-operator"
version = "0.1.0"
edition = "2021"
publish = false

[dependencies]
env_logger = "=0.11.11"
futures = "=0.3.34"
k8s-openapi = { version = "=0.21.1", features = ["latest"] }
kube = { version = "=0.88.1", features = ["runtime"] }
log = "=0.4.34"
rusoto_core = "=0.48.0"
rusoto_elbv2 = "=0.48.0"
rusoto_resourcegroupstaggingapi = "=0.48.0"
serde_json = "=1.0.154"
tokio = { version = "=1.54.1", features = ["macros", "rt-multi-thread", "time"] }
