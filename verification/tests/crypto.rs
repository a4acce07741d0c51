use pwcrypto::{
    check_candidate, compute_file_sig, create_user, derive_key, derive_subkey, get_key, init,
    verify_file, CryptoError, Key, PasswordRecord, Salt, User,
};

fn setup() {
    init().expect("library initialization failed");
}

fn record(id: &[u8], name: &[u8], password: &[u8]) -> PasswordRecord {
    PasswordRecord { id: id.to_vec(), name: name.to_vec(), password: password.to_vec() }
}

fn sample_records() -> Vec<PasswordRecord> {
    vec![
        record(&[1], b"site", b"secret"),
        record(&[2], b"mail", b"hunter2"),
        record(&[3], b"bank", b"pin1234"),
    ]
}

#[test]
fn kdf_deterministic() {
    setup();
    let salt: Salt = [5u8; 32];
    let (k1, h1) = derive_key("correct horse", &salt).unwrap();
    let (k2, h2) = derive_key("correct horse", &salt).unwrap();
    assert_eq!(k1, k2);
    assert_eq!(h1, h2);
}

#[test]
fn kdf_sensitivity_passphrase() {
    setup();
    let salt: Salt = [5u8; 32];
    let (k1, h1) = derive_key("correct horse", &salt).unwrap();
    let (k2, h2) = derive_key("correct hors\x66", &salt).unwrap();
    assert_ne!(k1, k2);
    assert_ne!(h1, h2);
}

#[test]
fn kdf_sensitivity_salt() {
    setup();
    let salt1: Salt = [5u8; 32];
    let mut salt2: Salt = [5u8; 32];
    salt2[0] ^= 1;
    let (k1, h1) = derive_key("correct horse", &salt1).unwrap();
    let (k2, h2) = derive_key("correct horse", &salt2).unwrap();
    assert_ne!(k1, k2);
    assert_ne!(h1, h2);
}

#[test]
fn kdf_output_is_not_its_input() {
    setup();
    let salt: Salt = [5u8; 32];
    let (key, hash) = derive_key("correct horse", &salt).unwrap();
    assert_ne!(key, salt);
    assert_ne!(hash, salt);
    assert_ne!(key, hash);
}

#[test]
fn authentication_correct() {
    setup();
    let (user, key) = create_user("correct horse").unwrap();
    let key2 = get_key(&user, "correct horse").unwrap();
    assert_eq!(key, key2);
}

#[test]
fn authentication_rejects_wrong_passphrase() {
    setup();
    let (user, _key) = create_user("correct horse").unwrap();
    let err = get_key(&user, "incorrect horse").unwrap_err();
    assert_eq!(err, CryptoError::Authentication);
    let err = get_key(&user, "").unwrap_err();
    assert_eq!(err, CryptoError::Authentication);
}

#[test]
fn fresh_users_get_distinct_salts() {
    setup();
    let (u1, _) = create_user("same passphrase").unwrap();
    let (u2, _) = create_user("same passphrase").unwrap();
    assert_ne!(u1.salt, u2.salt);
    assert_ne!(u1.hash, u2.hash);
    assert_eq!(u1.sig, [0u8; 32]);
}

#[test]
fn subkey_independence() {
    setup();
    let k: Key = [9u8; 32];
    let labels: [&[u8]; 4] = [b"A", b"B", b"VERIFY", b"ENCRYPT"];
    for i in 0..labels.len() {
        for j in 0..labels.len() {
            let si = derive_subkey(&k, labels[i]);
            let sj = derive_subkey(&k, labels[j]);
            if i == j {
                assert_eq!(si, sj);
            } else {
                assert_ne!(si, sj);
            }
        }
    }
    assert_ne!(derive_subkey(&k, b"A"), k);
}

#[test]
fn subkey_matches_known_mac_vector() {
    setup();
    // "Test Case 2" of RFC 4231, the HMAC-SHA-512-256 variant: key "Jefe"
    // zero-padded to 32 bytes, message "what do ya want for nothing?".
    let mut key: Key = [0u8; 32];
    key[0] = 0x4a;
    key[1] = 0x65;
    key[2] = 0x66;
    key[3] = 0x65;
    let tag = derive_subkey(&key, b"what do ya want for nothing?");
    let expected: [u8; 32] = [
        0x16, 0x4b, 0x7a, 0x7b, 0xfc, 0xf8, 0x19, 0xe2, 0xe3, 0x95, 0xfb, 0xe7, 0x3b, 0x56, 0xe0,
        0xa3, 0x87, 0xbd, 0x64, 0x22, 0x2e, 0x83, 0x1f, 0xd6, 0x10, 0x27, 0x0c, 0xd7, 0xea, 0x25,
        0x05, 0x54,
    ];
    assert_eq!(tag, expected);
}

#[test]
fn signature_round_trip() {
    setup();
    let key: Key = [7u8; 32];
    let records = sample_records();
    let sig = compute_file_sig(&key, &records);
    let user = User { salt: [0u8; 32], hash: [0u8; 32], sig };
    assert!(verify_file(&user, &key, &records));
}

#[test]
fn signature_depends_on_key() {
    setup();
    let records = sample_records();
    let sig1 = compute_file_sig(&[7u8; 32], &records);
    let sig2 = compute_file_sig(&[8u8; 32], &records);
    assert_ne!(sig1, sig2);
}

#[test]
fn tamper_detection_field_mutation() {
    setup();
    let key: Key = [7u8; 32];
    let sig = compute_file_sig(&key, &sample_records());
    let user = User { salt: [0u8; 32], hash: [0u8; 32], sig };

    let mut tampered_id = sample_records();
    tampered_id[1].id[0] ^= 1;
    assert!(!verify_file(&user, &key, &tampered_id));

    let mut tampered_name = sample_records();
    tampered_name[0].name[2] ^= 1;
    assert!(!verify_file(&user, &key, &tampered_name));

    let mut tampered_password = sample_records();
    tampered_password[2].password[0] ^= 1;
    assert!(!verify_file(&user, &key, &tampered_password));
}

#[test]
fn tamper_detection_reorder_and_resize() {
    setup();
    let key: Key = [7u8; 32];
    let sig = compute_file_sig(&key, &sample_records());
    let user = User { salt: [0u8; 32], hash: [0u8; 32], sig };

    let mut reordered = sample_records();
    reordered.swap(0, 1);
    assert!(!verify_file(&user, &key, &reordered));

    let mut shrunk = sample_records();
    shrunk.pop();
    assert!(!verify_file(&user, &key, &shrunk));

    let mut grown = sample_records();
    grown.push(record(&[4], b"extra", b"entry"));
    assert!(!verify_file(&user, &key, &grown));
}

#[test]
fn tamper_detection_wrong_key() {
    setup();
    let records = sample_records();
    let sig = compute_file_sig(&[7u8; 32], &records);
    let user = User { salt: [0u8; 32], hash: [0u8; 32], sig };
    assert!(!verify_file(&user, &[9u8; 32], &records));
}

#[test]
fn empty_collection() {
    setup();
    let key: Key = [7u8; 32];
    let empty: Vec<PasswordRecord> = Vec::new();
    let sig1 = compute_file_sig(&key, &empty);
    let sig2 = compute_file_sig(&key, &empty);
    assert_eq!(sig1, sig2);
    let user = User { salt: [0u8; 32], hash: [0u8; 32], sig: sig1 };
    assert!(verify_file(&user, &key, &empty));
}

#[test]
fn end_to_end() {
    setup();
    let (mut user, key) = create_user("correct horse").unwrap();

    let empty: Vec<PasswordRecord> = Vec::new();
    user.sig = compute_file_sig(&key, &empty);
    assert!(verify_file(&user, &key, &empty));
    let old_sig = user.sig;

    let records = vec![record(&[1], b"site", b"secret")];
    assert!(!verify_file(&user, &key, &records));

    user.sig = compute_file_sig(&key, &records);
    assert!(verify_file(&user, &key, &records));

    let old_user = User { sig: old_sig, ..user };
    assert!(!verify_file(&old_user, &key, &records));
}

#[test]
fn check_candidate_releases_key_on_match() {
    setup();
    let hash = [3u8; 32];
    let user = User { salt: [0u8; 32], hash, sig: [0u8; 32] };
    let key: Key = [7u8; 32];
    assert_eq!(check_candidate(&user, key, &hash), Ok(key));
}

#[test]
fn check_candidate_rejects_on_mismatch() {
    setup();
    let user = User { salt: [0u8; 32], hash: [3u8; 32], sig: [0u8; 32] };
    let key: Key = [7u8; 32];
    let mut wrong = [3u8; 32];
    wrong[31] ^= 1;
    assert_eq!(check_candidate(&user, key, &wrong), Err(CryptoError::Authentication));
}
