//! Trusted boundary to the outside cryptographic library: each function here
//! makes one call into sodiumoxide, and its contract states what that call's
//! source shows.

use crate::model::{kdf_of, mac_of};
use crate::types::{Key, Salt, DERIVBYTES};
use sodiumoxide::crypto::auth;
use sodiumoxide::crypto::pwhash;
use vstd::prelude::*;

verus! {

/// Relies on sodiumoxide's pwhash::derive_key (scrypt over salsa20/8 and
/// sha-256, at fixed interactive cost): it fills the whole output buffer with
/// a value that depends on the passphrase bytes and the salt alone, and fails
/// only when the computation could not complete (for instance because the
/// memory it needs was refused).
#[verifier::external_body]
pub(crate) fn pwhash_derive(pw: &str, salt: &Salt) -> (r: Option<[u8; DERIVBYTES]>)
    ensures
        r matches Some(out) ==> out@ == kdf_of(pw@, salt@),
{
    let mut out = [0u8; DERIVBYTES];
    let res = pwhash::derive_key(
        &mut out,
        pw.as_bytes(),
        &pwhash::Salt(*salt),
        pwhash::OPSLIMIT_INTERACTIVE,
        pwhash::MEMLIMIT_INTERACTIVE,
    );
    match res {
        Ok(_) => Some(out),
        Err(()) => None,
    }
}

/// Relies on sodiumoxide's pwhash::gen_salt: a freshly generated random salt.
/// Nothing is promised of its value.
#[verifier::external_body]
pub(crate) fn gen_salt() -> Salt {
    let pwhash::Salt(s) = pwhash::gen_salt();
    s
}

/// Relies on sodiumoxide's auth::authenticate (HMAC-SHA-512-256): the tag is
/// a function of the key and the message alone.
#[verifier::external_body]
pub(crate) fn hmac(key: &Key, msg: &[u8]) -> (r: Key)
    ensures
        r@ == mac_of(key@, msg@),
{
    let auth::Tag(t) = auth::authenticate(msg, &auth::Key(*key));
    t
}

/// Relies on sodiumoxide's utils::memcmp: a constant-time comparison that
/// returns true exactly when the two byte slices are equal.
#[verifier::external_body]
pub(crate) fn ct_eq(a: &[u8], b: &[u8]) -> (r: bool)
    ensures
        r == (a@ == b@),
{
    sodiumoxide::utils::memcmp(a, b)
}

/// Relies on sodiumoxide::init: one-time process-wide initialization of the
/// underlying cryptographic library. The host application calls this once
/// before any derivation or verification.
#[verifier::external_body]
pub fn init() -> Result<(), ()> {
    sodiumoxide::init()
}

} // verus!
