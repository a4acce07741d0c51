use vstd::prelude::*;

verus! {

/// Number of bytes of a master key or of a derived subkey.
pub const KEYBYTES: usize = 32;

/// Number of bytes of a verification hash.
pub const HASHBYTES: usize = 32;

/// Number of bytes the key-derivation call produces: the key followed by the
/// verification hash.
pub const DERIVBYTES: usize = KEYBYTES + HASHBYTES;

/// Number of bytes of a salt.
pub const SALTBYTES: usize = 32;

/// Number of bytes of a collection signature (the MAC tag size).
pub const SIGBYTES: usize = 32;

/// A master key or subkey: secret, never persisted.
pub type Key = [u8; KEYBYTES];

/// The non-secret half of a derivation, used only to check a passphrase.
pub type Hash = [u8; HASHBYTES];

/// A per-user random salt: persisted, not secret.
pub type Salt = [u8; SALTBYTES];

/// The integrity signature over the full record collection.
pub type Sig = [u8; SIGBYTES];

/// A stored account record: the salt and verification hash needed to
/// re-derive and check a master key, and the integrity signature over the
/// record collection at the time it was last signed.
#[derive(Clone, Copy)]
pub struct User {
    pub salt: Salt,
    pub hash: Hash,
    pub sig: Sig,
}

/// One stored password entry as the storage layer supplies it: three opaque
/// byte fields, read but never owned by this core.
pub struct PasswordRecord {
    pub id: Vec<u8>,
    pub name: Vec<u8>,
    pub password: Vec<u8>,
}

/// Failures of the crypto core.
#[derive(Clone, Copy, Debug, PartialEq, Eq, Structural)]
pub enum CryptoError {
    /// The underlying key-derivation call could not complete, for instance
    /// because the operating system refused the memory it needs. Fatal: the
    /// caller must not continue with degraded key material.
    Configuration,
    /// The supplied passphrase does not match the stored verification hash.
    Authentication,
}

} // verus!
