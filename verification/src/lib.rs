//! Nkeys: ed25519 key pairs in the prefix-and-checksum text encoding used by
//! NATS 2.0+ security.
//!
//! A key pair is written as text in two forms.  The public key is one prefix
//! byte naming the key type, the 32 key bytes and a CRC-16 checksum, encoded
//! in unpadded base32.  The seed, which must be kept secret, is two prefix
//! bytes, the 32 seed bytes and a checksum, encoded the same way.
pub mod cli;
pub mod crc;
pub mod crypto;
pub mod encoding;
pub mod error;
pub mod keypair;
pub mod sealing;

pub use keypair::{KeyPair, KeyPairType};
