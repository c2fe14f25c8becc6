//! In-process custodian for one Schnorr (secp256k1, BIP-340) secret key.
//!
//! The key is accepted as raw bytes, as a bech32 `nsec` string or as hex,
//! held only in memory that is wiped when it is dropped, and used on demand
//! to derive the public key and sign 32-byte digests.
pub mod error;
pub mod scalar;
pub mod encoding;
pub mod primitives;
pub mod store;
pub mod custody;
pub mod lifecycle;

pub use custody::{
    clear_key, derive_pubkey, import_hex, import_key, import_nsec, is_key_loaded, sha256_hash,
    sign_hash,
};
pub use error::KeyError;
pub use store::KeyStore;
