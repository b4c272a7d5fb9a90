[package]
name = "stake_pool_updater"
version = "0.1.0"
edition = "2021"
publish = false

[dependencies]
anyhow = "=1.0.104"
borsh = "=1.8.1"
dotenv = "=0.15.0"
serde = { version = "=1.0.229", features = ["derive"] }
solana-commitment-config = "=2.2.1"
solana-epoch-info = "=2.2.1"
solana-hash = "=2.3.0"
solana-instruction = "=2.3.3"
solana-keypair = "=2.2.3"
solana-message = "=2.4.0"
solana-native-token = "=2.3.0"
solana-program = "=2.3.0"
solana-pubkey = "=2.4.0"
solana-rpc-client = { version = "2", default-features = false }
solana-signer = "=2.2.1"
solana-transaction = { version = "=2.2.3", features = ["bincode"] }
spl-stake-pool = "=2.0.3"
tokio = { version = "=1.54.1", features = ["macros", "rt-multi-thread", "time"] }
tracing = "=0.1.44"
tracing-subscriber = { version = "0.3", default-features = false, features = ["env-filter", "fmt", "std"] }
