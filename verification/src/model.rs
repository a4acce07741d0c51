//! Mathematical model of the crypto core: names for what the two outside
//! primitives return, and the derived notions every contract is stated over.

use crate::types::{PasswordRecord, User, DERIVBYTES, KEYBYTES};
use vstd::prelude::*;

verus! {

/// The combined output of the password-hashing primitive on a passphrase and
/// a salt: `DERIVBYTES` bytes, a function of its two arguments alone.
pub uninterp spec fn kdf_of(pw: Seq<char>, salt: Seq<u8>) -> Seq<u8>;

/// The tag of the keyed message-authentication primitive on a key and a
/// message: a function of its two arguments alone.
pub uninterp spec fn mac_of(key: Seq<u8>, msg: Seq<u8>) -> Seq<u8>;

/// The master key: the first `KEYBYTES` bytes of the derivation output.
pub open spec fn master_key_of(pw: Seq<char>, salt: Seq<u8>) -> Seq<u8> {
    kdf_of(pw, salt).subrange(0, KEYBYTES as int)
}

/// The verification hash: the remaining bytes of the derivation output,
/// disjoint from the master key's range.
pub open spec fn verify_hash_of(pw: Seq<char>, salt: Seq<u8>) -> Seq<u8> {
    kdf_of(pw, salt).subrange(KEYBYTES as int, DERIVBYTES as int)
}

/// The subkey derived from a master key for a purpose label: the MAC tag over
/// the label under the master key.
pub open spec fn subkey_of(key: Seq<u8>, label: Seq<u8>) -> Seq<u8> {
    mac_of(key, label)
}

/// The purpose label under which the signing subkey is derived: "VERIFY" in
/// ASCII.
pub open spec fn verify_label() -> Seq<u8> {
    seq![86u8, 69u8, 82u8, 73u8, 70u8, 89u8]
}

/// The bytes one record contributes to the signed stream: its id, name and
/// password in that order, with no framing between the fields.
pub open spec fn record_bytes(r: PasswordRecord) -> Seq<u8> {
    r.id@ + r.name@ + r.password@
}

/// The byte stream of a whole ordered collection: each record's bytes in
/// iteration order, concatenated.
pub open spec fn stream_of(records: Seq<PasswordRecord>) -> Seq<u8>
    decreases records.len(),
{
    if records.len() == 0 {
        Seq::empty()
    } else {
        stream_of(records.drop_last()) + record_bytes(records.last())
    }
}

/// The integrity signature over a collection: the MAC of its stream under the
/// signing subkey of the master key.
pub open spec fn signature_of(key: Seq<u8>, records: Seq<PasswordRecord>) -> Seq<u8> {
    mac_of(subkey_of(key, verify_label()), stream_of(records))
}

/// Whether a passphrase authenticates against a stored user record: its
/// verification hash under the user's salt equals the stored hash.
pub open spec fn authenticates(user: User, pw: Seq<char>) -> bool {
    verify_hash_of(pw, user.salt@) == user.hash@
}

/// Whether a user's stored signature matches a collection under a key.
pub open spec fn sig_matches(user: User, key: Seq<u8>, records: Seq<PasswordRecord>) -> bool {
    user.sig@ == signature_of(key, records)
}

} // verus!
