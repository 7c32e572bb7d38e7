pub mod bip32;
pub mod bytes;
pub mod change;
pub mod channel;
pub mod curve;
pub mod ecdsa;
pub mod entropy;
pub mod hashes;
pub mod htlc;
pub mod keys_manager;
pub mod node;
pub mod nonce;
pub mod parties;
pub mod phantom;
pub mod recovery;
pub mod script;
pub mod sighash;
pub mod signer;
pub mod spend;
pub mod sweep;
pub mod taproot;
pub mod taproot_channel;
pub mod taproot_signer;
pub mod tx;
pub mod type_resolver;
