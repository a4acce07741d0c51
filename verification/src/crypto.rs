//! The verified core: key derivation, passphrase verification, subkey
//! derivation, and the integrity signature over the record collection.

use crate::model::{
    authenticates, kdf_of, mac_of, master_key_of, sig_matches, signature_of, stream_of, subkey_of,
    verify_hash_of, verify_label,
};
use crate::sodium::{ct_eq, gen_salt, hmac, pwhash_derive};
use crate::types::{
    CryptoError, Key, PasswordRecord, Salt, Sig, User, DERIVBYTES, HASHBYTES, KEYBYTES, SIGBYTES,
};
use vstd::prelude::*;

verus! {

broadcast use vstd::array::group_array_axioms;

/// Derives the (master key, verification hash) pair from a passphrase and a
/// salt: the first `KEYBYTES` bytes of the derivation output become the key,
/// the remaining bytes the hash. Fails only when the underlying derivation
/// could not complete.
pub fn derive_key(pw: &str, salt: &Salt) -> (r: Result<(Key, crate::types::Hash), CryptoError>)
    ensures
        r matches Ok(kh) ==> kh.0@ == master_key_of(pw@, salt@) && kh.1@ == verify_hash_of(
            pw@,
            salt@,
        ),
        r matches Err(e) ==> e == CryptoError::Configuration,
{
    match pwhash_derive(pw, salt) {
        None => Err(CryptoError::Configuration),
        Some(buf) => {
            let ghost kdf = kdf_of(pw@, salt@);
            let mut key: Key = [0u8; KEYBYTES];
            let mut hash: crate::types::Hash = [0u8; HASHBYTES];
            let mut i: usize = 0;
            while i < KEYBYTES
                invariant
                    i <= KEYBYTES,
                    buf@ == kdf,
                    forall|j: int| 0 <= j < i ==> key@[j] == kdf[j],
                decreases KEYBYTES - i,
            {
                key[i] = buf[i];
                i = i + 1;
            }
            let mut j: usize = 0;
            while j < HASHBYTES
                invariant
                    j <= HASHBYTES,
                    buf@ == kdf,
                    forall|m: int| 0 <= m < j ==> hash@[m] == kdf[KEYBYTES + m],
                decreases HASHBYTES - j,
            {
                hash[j] = buf[KEYBYTES + j];
                j = j + 1;
            }
            proof {
                assert(key@ =~= kdf.subrange(0, KEYBYTES as int));
                assert(hash@ =~= kdf.subrange(KEYBYTES as int, DERIVBYTES as int));
            }
            Ok((key, hash))
        },
    }
}

/// Decides an unlock attempt from the pair the derivation produced: releases
/// the candidate key exactly when the candidate hash equals the stored one
/// (compared in constant time), and otherwise returns the `Authentication`
/// error, never anything else and never partial key material.
pub fn check_candidate(user: &User, candidate_key: Key, candidate_hash: &crate::types::Hash) -> (r:
    Result<Key, CryptoError>)
    ensures
        candidate_hash@ == user.hash@ ==> (r matches Ok(k) && k == candidate_key),
        candidate_hash@ != user.hash@ ==> (r matches Err(e) && e == CryptoError::Authentication),
{
    if ct_eq(candidate_hash.as_slice(), user.hash.as_slice()) {
        Ok(candidate_key)
    } else {
        Err(CryptoError::Authentication)
    }
}

/// Re-derives the master key for a stored user from an entered passphrase and
/// hands the derived pair to `check_candidate`, which owes the whole
/// decision: the key exactly on a hash match, the `Authentication` error
/// exactly on a mismatch. This function adds only the derivation call itself,
/// whose failure (`Configuration`) is the one outcome the contract cannot
/// owe, since the outside derivation may refuse to complete on any input.
pub fn get_key(user: &User, pw: &str) -> (r: Result<Key, CryptoError>)
    ensures
        r matches Ok(k) ==> authenticates(*user, pw@) && k@ == master_key_of(pw@, user.salt@),
        r matches Err(e) && e == CryptoError::Authentication ==> !authenticates(*user, pw@),
        authenticates(*user, pw@) ==> (r matches Ok(k) && k@ == master_key_of(pw@, user.salt@))
            || (r matches Err(e) && e == CryptoError::Configuration),
        !authenticates(*user, pw@) ==> (r matches Err(e)),
{
    match derive_key(pw, &user.salt) {
        Err(e) => Err(e),
        Ok((key, hash)) => check_candidate(user, key, &hash),
    }
}

/// Derives the subkey of a master key for a purpose label: the MAC tag over
/// the label under the master key. Deterministic; never fails.
pub fn derive_subkey(k: &Key, id: &[u8]) -> (r: Key)
    ensures
        r@ == subkey_of(k@, id@),
{
    hmac(k, id)
}

/// Creates a fresh account: generates a random salt, derives the key pair
/// from the passphrase under it, and returns the user record (its signature
/// still zeroed, to be set once the record collection exists) together with
/// the master key.
pub fn create_user(pw: &str) -> (r: Result<(User, Key), CryptoError>)
    ensures
        r matches Ok(uk) ==> authenticates(uk.0, pw@) && uk.1@ == master_key_of(
            pw@,
            uk.0.salt@,
        ) && uk.0.sig@ =~= Seq::new(SIGBYTES as nat, |i: int| 0u8),
        r matches Err(e) ==> e == CryptoError::Configuration,
{
    let salt: Salt = gen_salt();
    match derive_key(pw, &salt) {
        Err(e) => Err(e),
        Ok((key, hash)) => {
            let user = User { salt, hash, sig: [0u8; SIGBYTES] };
            Ok((user, key))
        },
    }
}

/// Computes the integrity signature over the ordered record collection: every
/// record's id, name and password bytes are fed, unframed and in iteration
/// order, to a MAC keyed with the signing subkey of the master key.
pub fn compute_file_sig(key: &Key, records: &Vec<PasswordRecord>) -> (r: Sig)
    ensures
        r@ == signature_of(key@, records@),
{
    let label: [u8; 6] = [86, 69, 82, 73, 70, 89];
    proof {
        assert(label@ =~= verify_label());
    }
    let skey = derive_subkey(key, label.as_slice());
    let mut msg: Vec<u8> = Vec::new();
    let mut i: usize = 0;
    while i < records.len()
        invariant
            i <= records@.len(),
            msg@ == stream_of(records@.take(i as int)),
        decreases records@.len() - i,
    {
        let r = &records[i];
        msg.extend_from_slice(r.id.as_slice());
        msg.extend_from_slice(r.name.as_slice());
        msg.extend_from_slice(r.password.as_slice());
        proof {
            let s = records@.take(i + 1);
            assert(s.drop_last() =~= records@.take(i as int));
            assert(s.last() == records@[i as int]);
            assert(msg@ =~= stream_of(s));
        }
        i = i + 1;
    }
    proof {
        assert(records@.take(records@.len() as int) =~= records@);
    }
    hmac(&skey, msg.as_slice())
}

/// Recomputes the collection signature under the given master key and
/// compares it, in constant time, against the one stored in the user record.
/// Returns true exactly when the stored signature is the signature of this
/// collection under this key.
pub fn verify_file(user: &User, key: &Key, records: &Vec<PasswordRecord>) -> (r: bool)
    ensures
        r == sig_matches(*user, key@, records@),
{
    let sig = compute_file_sig(key, records);
    ct_eq(user.sig.as_slice(), sig.as_slice())
}

/// Law: key derivation is deterministic. Two derivations from the same
/// passphrase and the same salt yield the same master key and the same
/// verification hash.
pub proof fn lemma_kdf_deterministic(
    pw: Seq<char>,
    salt: Seq<u8>,
    k1: Seq<u8>,
    h1: Seq<u8>,
    k2: Seq<u8>,
    h2: Seq<u8>,
)
    requires
        k1 == master_key_of(pw, salt),
        h1 == verify_hash_of(pw, salt),
        k2 == master_key_of(pw, salt),
        h2 == verify_hash_of(pw, salt),
    ensures
        k1 == k2,
        h1 == h2,
{
}

/// Law: authentication is correct. A user whose stored hash came from a
/// passphrase accepts that passphrase, and the key authentication returns is
/// the very key that creation returned.
pub proof fn lemma_authentication_correct(
    user: User,
    pw: Seq<char>,
    created_key: Seq<u8>,
    returned_key: Seq<u8>,
)
    requires
        user.hash@ == verify_hash_of(pw, user.salt@),
        created_key == master_key_of(pw, user.salt@),
        returned_key == master_key_of(pw, user.salt@),
    ensures
        authenticates(user, pw),
        returned_key == created_key,
{
}

/// Law: a passphrase whose verification hash under the user's salt differs
/// from the stored hash does not authenticate. (A wrong passphrase whose hash
/// collided with the right one would be outside this statement; such a
/// collision is what the derivation primitive makes overwhelmingly unlikely.)
pub proof fn lemma_wrong_passphrase_rejected(user: User, pw: Seq<char>)
    requires
        verify_hash_of(pw, user.salt@) != user.hash@,
    ensures
        !authenticates(user, pw),
{
}

/// Law: signature round trip. Storing the signature computed over a
/// collection under a key makes verification of that same collection under
/// that same key succeed.
pub proof fn lemma_signature_round_trip(
    sig: Seq<u8>,
    key: Seq<u8>,
    records: Seq<PasswordRecord>,
    user: User,
)
    requires
        sig == signature_of(key, records),
        user.sig@ == sig,
    ensures
        sig_matches(user, key, records),
{
}

/// Law: the signature of the empty collection is well-defined and determined
/// by the key alone: it is the MAC of the empty stream under the signing
/// subkey.
pub proof fn lemma_empty_signature(key: Seq<u8>)
    ensures
        signature_of(key, Seq::empty()) == mac_of(subkey_of(key, verify_label()), Seq::empty()),
{
    assert(stream_of(Seq::empty()) =~= Seq::<u8>::empty());
}

} // verus!
