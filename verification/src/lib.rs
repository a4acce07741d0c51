//! Cryptographic core of a password store: passphrase-based key derivation,
//! passphrase verification, purpose-labelled subkey derivation, and a keyed
//! integrity signature over the ordered collection of stored records.

pub mod crypto;
pub mod model;
mod sodium;
pub mod types;

pub use crypto::{
    check_candidate, compute_file_sig, create_user, derive_key, derive_subkey, get_key, verify_file,
};
pub use sodium::init;
pub use types::{CryptoError, Key, PasswordRecord, Salt, Sig, User};
pub use types::{DERIVBYTES, HASHBYTES, KEYBYTES, SALTBYTES, SIGBYTES};
