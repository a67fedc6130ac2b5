//! Encryption, the envelope and the key derivation, on their own.

use scrypt::password_hash::rand_core::OsRng;
use scrypt::password_hash::SaltString;
use serde_json::Value;
use wallet_backup::cipher::{
    can_decrypt, can_encrypt_len, decrypt_payload, decrypt_payload_at_cost, derive_key,
    derive_key_at_cost, encrypt_payload_at_cost, is_valid_salt, seal_payload, unseal_payload,
    BackupPubData, BACKUP_VERSION, KEY_LEN, NONCE_LEN, SCRYPT_LOG_N,
};
use wallet_backup::envelope::{decode_backup, encode_backup, frame_backup, split_backup};
use wallet_backup::error::{Error, InternalError};

fn write_pub_data(pub_data: &BackupPubData) -> Result<Vec<u8>, String> {
    let mut map = serde_json::Map::new();
    map.insert("salt".to_string(), Value::from(pub_data.salt.clone()));
    map.insert("nonce".to_string(), Value::from(pub_data.nonce.clone()));
    map.insert("version".to_string(), Value::from(pub_data.version));
    serde_json::to_vec(&Value::Object(map)).map_err(|e| e.to_string())
}

fn read_pub_data(json: &[u8]) -> Option<BackupPubData> {
    let value: Value = serde_json::from_slice(json).ok()?;
    Some(BackupPubData {
        salt: value.get("salt")?.as_str()?.to_string(),
        nonce: value.get("nonce")?.as_str()?.to_string(),
        version: u8::try_from(value.get("version")?.as_u64()?).ok()?,
    })
}

fn pub_data(salt: &str, nonce: &str, version: u8) -> BackupPubData {
    BackupPubData { salt: salt.to_string(), nonce: nonce.to_string(), version }
}

/// The cost of the key derivation in these tests. At the full cost one key
/// takes about half a minute where scrypt is built without optimisation.
const LOG_N: u8 = 10;

const SALT: &str = "dGVzdHNhbHQ";
const NONCE: &str = "000102030405060708090a0b0c0d0e0f1011121314151617";

/// The bytes 0, 1, 2 and so on.
fn counting<const N: usize>() -> [u8; N] {
    let mut bytes = [0u8; N];
    for i in 0..N {
        bytes[i] = i as u8;
    }
    bytes
}

/// `hello` under the counting key and the counting nonce.
const SEALED: &str = "f6a76313ffb32df8d043e83027743feaa6af464ce2";

#[test]
fn encrypt_decrypt_round_trip() {
    let plaintext = b"hello, RGB wallet backup!";
    let password = "strong_password_42";

    let (ciphertext, pub_data) = encrypt_payload_at_cost(plaintext, password, LOG_N).unwrap();
    assert_ne!(ciphertext, plaintext);
    assert_eq!(pub_data.version, BACKUP_VERSION);

    let decrypted = decrypt_payload_at_cost(&ciphertext, password, &pub_data, LOG_N).unwrap();
    assert_eq!(decrypted, plaintext);
}

#[test]
fn wrong_password_fails() {
    let plaintext = b"secret data";
    let (ciphertext, pub_data) = encrypt_payload_at_cost(plaintext, "correct", LOG_N).unwrap();

    let result = decrypt_payload_at_cost(&ciphertext, "wrong", &pub_data, LOG_N);
    assert!(matches!(result, Err(Error::WrongPassword)));
}

#[test]
fn unsupported_version_fails() {
    let plaintext = b"data";
    let (ciphertext, mut pub_data) = encrypt_payload_at_cost(plaintext, "pw", LOG_N).unwrap();
    pub_data.version = 99;

    let result = decrypt_payload_at_cost(&ciphertext, "pw", &pub_data, LOG_N);
    assert!(matches!(result, Err(Error::UnsupportedBackupVersion { .. })));
}

#[test]
fn encode_decode_round_trip() {
    let ciphertext = b"encrypted_blob_here";
    let pub_data = BackupPubData {
        salt: "dGVzdHNhbHQ".to_string(),
        nonce: hex::encode([0xABu8; NONCE_LEN]),
        version: BACKUP_VERSION,
    };

    let encoded = encode_backup(ciphertext, &pub_data, write_pub_data).unwrap();
    let (decoded_pub, decoded_ct) = decode_backup(&encoded, read_pub_data).unwrap();

    assert_eq!(decoded_ct, ciphertext);
    assert_eq!(decoded_pub.salt, pub_data.salt);
    assert_eq!(decoded_pub.nonce, pub_data.nonce);
    assert_eq!(decoded_pub.version, BACKUP_VERSION);
}

#[test]
fn decode_too_short_fails() {
    assert!(matches!(decode_backup(&[0, 1], read_pub_data), Err(Error::InvalidBackup)));
    assert!(matches!(decode_backup(&[], read_pub_data), Err(Error::InvalidBackup)));
}

#[test]
fn decode_truncated_pub_data_fails() {
    // pub_len says 100 but only 5 bytes follow
    let data = [100u8, 0, 0, 0, 0, 0, 0, 0, 0];
    assert!(matches!(decode_backup(&data, read_pub_data), Err(Error::InvalidBackup)));
}

#[test]
fn derive_key_deterministic() {
    let salt = SaltString::generate(&mut OsRng);
    let k1 = derive_key_at_cost("password", salt.as_str(), LOG_N).unwrap();
    let k2 = derive_key_at_cost("password", salt.as_str(), LOG_N).unwrap();
    assert_eq!(k1, k2);

    let k3 = derive_key_at_cost("different", salt.as_str(), LOG_N).unwrap();
    assert_ne!(k1, k3);
}

#[test]
fn derived_keys_have_the_known_values() {
    let key = |password: &str, salt: &str, log_n: u8| {
        hex::encode(derive_key_at_cost(password, salt, log_n).unwrap())
    };
    assert_eq!(
        key("password", SALT, 10),
        "fbf896d654a94cdf54647f717ed13b62dc8b7f91928124e342cd3a7c104964e1"
    );
    assert_eq!(
        key("password", SALT, 4),
        "d8f891f3ca2e5c3376991bc83a97b5311a216f229663c75b87d74d666b8e093c"
    );
    assert_eq!(
        key("different", SALT, 10),
        "1f99c46dcdb204846ea2d1fb21d9a9cfc07d472a4c7f1ef53617e1096fd23a4a"
    );
    assert_eq!(
        key("password", "AAAA", 10),
        "398d7ccd3083eb0b6500a4e11fa58dcf07597ad9c6e581f1babfe16c5d5416a8"
    );
}

#[test]
fn malformed_salts_are_refused() {
    let text = |salt: &str| match derive_key("password", salt) {
        Err(Error::Component(InternalError::PasswordHashError(text))) => text,
        _ => panic!("accepted {}", salt),
    };
    assert_eq!(text("abc"), "salt invalid: value to short");
    assert_eq!(text("dGVz?HNh"), "salt invalid: contains invalid character: '?'");
    assert_eq!(text(&"A".repeat(65)), "salt invalid: value to long");
    // Five characters encode no whole number of bytes.
    assert!(!text("AAAAA").is_empty());
    // Stray bits behind the last byte.
    assert!(!text("AAAAAB").is_empty());
    assert!(!text("AAAAAAB").is_empty());
}

#[test]
fn salt_check_agrees_with_key_derivation() {
    let longest = "A".repeat(64);
    for salt in ["AAAA", "AAAAAA", "AAAAAQ", "AAAAAAE", "a+/9", longest.as_str()] {
        assert!(is_valid_salt(salt), "{}", salt);
        assert!(derive_key_at_cost("password", salt, 4).is_ok(), "{}", salt);
    }
    let too_long = "A".repeat(65);
    for salt in [
        "", "abc", "dGVz?HNh", "AAAAA", "AAAAAB", "AAAAAAB", "AAA=", "AAA\u{e9}", "AAAAAI", "AAA.",
        "AAA-", "AAA_", too_long.as_str(),
    ] {
        assert!(!is_valid_salt(salt), "{}", salt);
        assert!(derive_key_at_cost("password", salt, 4).is_err(), "{}", salt);
    }
}

#[test]
fn encryption_has_the_known_value() {
    let key = counting::<KEY_LEN>();
    let nonce = counting::<NONCE_LEN>();
    let (ciphertext, header) = seal_payload(b"hello", &key, SALT.to_string(), Ok(nonce)).unwrap();
    assert_eq!(hex::encode(&ciphertext), SEALED);
    assert_eq!(header.salt, SALT);
    assert_eq!(header.nonce, NONCE);
    assert_eq!(header.version, 1);
}

#[test]
fn decryption_has_the_known_value() {
    let key = counting::<KEY_LEN>();
    let ciphertext = hex::decode(SEALED).unwrap();
    assert_eq!(unseal_payload(&ciphertext, &key, NONCE).unwrap(), b"hello");
    assert_eq!(unseal_payload(&ciphertext, &key, &NONCE.to_uppercase()).unwrap(), b"hello");
}

#[test]
fn a_missing_nonce_is_reported() {
    let key = counting::<KEY_LEN>();
    let r = seal_payload(b"hello", &key, SALT.to_string(), Err("no entropy".to_string()));
    match r {
        Err(Error::Internal { details }) => assert_eq!(details, "RNG unavailable: no entropy"),
        _ => panic!("sealed"),
    }
}

#[test]
fn random_public_data_have_their_form() {
    let (ciphertext, a) = encrypt_payload_at_cost(b"", "pw", LOG_N).unwrap();
    assert_eq!(ciphertext.len(), 16);
    assert_eq!(a.salt.len(), 22);
    assert_eq!(a.nonce.len(), 48);
    assert!(is_valid_salt(&a.salt));
    assert!(can_decrypt(&ciphertext, &a));
    let (_, b) = encrypt_payload_at_cost(b"", "pw", LOG_N).unwrap();
    assert_ne!(a.salt, b.salt);
    assert_ne!(a.nonce, b.nonce);
}

#[test]
fn tampered_and_short_ciphertexts_do_not_open() {
    let key = counting::<KEY_LEN>();
    let mut ciphertext = hex::decode(SEALED).unwrap();
    ciphertext[0] ^= 1;
    assert!(matches!(unseal_payload(&ciphertext, &key, NONCE), Err(Error::WrongPassword)));
    assert!(matches!(unseal_payload(&ciphertext[..15], &key, NONCE), Err(Error::WrongPassword)));
    assert!(matches!(unseal_payload(&[], &key, NONCE), Err(Error::WrongPassword)));
}

#[test]
fn malformed_nonces_are_refused() {
    let text = |nonce: &str| {
        let header = pub_data(SALT, nonce, 1);
        assert!(can_decrypt(&[], &header));
        match decrypt_payload_at_cost(&[], "password", &header, LOG_N) {
            Err(Error::Component(InternalError::HexError(text))) => text,
            _ => panic!("accepted {}", nonce),
        }
    };
    assert_eq!(text("zz"), "Invalid character 'z' at position 0");
    assert_eq!(text("0"), "Odd number of digits");
}

#[test]
fn a_malformed_salt_is_refused_before_the_nonce() {
    let r = decrypt_payload(&[], "password", &pub_data("abc", "zz", 1));
    assert!(matches!(r, Err(Error::Component(InternalError::PasswordHashError(_)))));
}

#[test]
fn every_other_version_is_refused_by_its_number() {
    for version in [0u8, 2, 10, 99, 100, 255] {
        match decrypt_payload(&[], "pw", &pub_data("abc", "zz", version)) {
            Err(Error::UnsupportedBackupVersion { version: text }) => {
                assert_eq!(text, version.to_string());
            }
            _ => panic!("accepted version {}", version),
        }
    }
}

#[test]
fn only_nonces_of_the_right_length_reach_the_cipher() {
    assert!(!can_decrypt(&[], &pub_data(SALT, "00", 1)));
    assert!(!can_decrypt(&[], &pub_data(SALT, "", 1)));
    assert!(can_decrypt(&[], &pub_data(SALT, NONCE, 1)));
    assert!(can_decrypt(&[], &pub_data(SALT, "00", 2)));
    assert!(can_decrypt(&[], &pub_data("abc", "00", 1)));
    assert!(can_decrypt(&[], &pub_data(SALT, "0", 1)));
}

#[test]
fn plaintext_lengths_around_the_limit() {
    assert!(can_encrypt_len(0));
    assert!(can_encrypt_len(274_877_906_816));
    assert!(!can_encrypt_len(274_877_906_817));
    assert!(!can_encrypt_len(274_877_906_879));
    assert!(can_encrypt_len(274_877_906_880));
}

#[test]
fn envelope_has_the_known_layout() {
    assert_eq!(frame_backup(b"ct", b"{}"), b"\x02\x00\x00\x00{}ct");
    let header = vec![b' '; 0x1_0203];
    let framed = frame_backup(b"x", &header);
    assert_eq!(framed[..4], [0x03, 0x02, 0x01, 0x00]);
    assert_eq!(framed.len(), 4 + 0x1_0203 + 1);
}

#[test]
fn splitting_gives_back_both_parts() {
    let header = vec![b'h'; 300];
    let framed = frame_backup(b"ciphertext", &header);
    let (pub_json, ciphertext) = split_backup(&framed).unwrap();
    assert_eq!(pub_json, header);
    assert_eq!(ciphertext, b"ciphertext");
    assert_eq!(frame_backup(ciphertext, pub_json), framed);

    let (pub_json, ciphertext) = split_backup(&[0, 0, 0, 0]).unwrap();
    assert!(pub_json.is_empty());
    assert!(ciphertext.is_empty());
}

#[test]
fn splitting_refuses_what_is_too_short() {
    for data in [&[][..], &[0, 0, 0][..], &[1, 0, 0, 0][..], &[0xff, 0xff, 0xff, 0xff, 0][..]] {
        assert!(matches!(split_backup(data), Err(Error::InvalidBackup)));
    }
}

#[test]
fn unreadable_headers_are_refused() {
    let framed = frame_backup(b"ct", b"not json");
    assert!(matches!(decode_backup(&framed, read_pub_data), Err(Error::InvalidBackup)));
    let framed = frame_backup(b"ct", b"{\"salt\":\"a\",\"nonce\":\"b\",\"version\":256}");
    assert!(matches!(decode_backup(&framed, read_pub_data), Err(Error::InvalidBackup)));
}

#[test]
fn unwritable_headers_are_reported() {
    let r = encode_backup(b"ct", &pub_data(SALT, NONCE, 1), |_| Err("no JSON".to_string()));
    match r {
        Err(Error::Component(InternalError::JsonError(text))) => assert_eq!(text, "no JSON"),
        _ => panic!("encoded"),
    }
}

#[test]
fn nothing_shorter_than_a_tag_opens() {
    let key = counting::<KEY_LEN>();
    let (tag, _) = seal_payload(b"", &key, SALT.to_string(), Ok(counting::<NONCE_LEN>())).unwrap();
    assert_eq!(tag.len(), 16);
    assert_eq!(unseal_payload(&tag, &key, NONCE).unwrap(), b"");
    for n in 0..16 {
        assert!(matches!(unseal_payload(&tag[..n], &key, NONCE), Err(Error::WrongPassword)));
    }
}

#[test]
fn what_opens_is_the_sealing_of_what_it_opens_to() {
    let header = pub_data(SALT, NONCE, 1);
    let key = derive_key_at_cost("password", SALT, LOG_N).unwrap();
    let nonce = counting::<NONCE_LEN>();
    let (ciphertext, _) = seal_payload(b"hello", &key, SALT.to_string(), Ok(nonce)).unwrap();
    let plaintext = decrypt_payload_at_cost(&ciphertext, "password", &header, LOG_N).unwrap();
    let (again, _) = seal_payload(&plaintext, &key, SALT.to_string(), Ok(nonce)).unwrap();
    assert_eq!(again, ciphertext);
}

#[test]
fn the_cost_is_that_of_the_default_parameters() {
    let params = scrypt::Params::default();
    assert_eq!(SCRYPT_LOG_N, params.log_n());
    assert_eq!(scrypt::Params::RECOMMENDED_R, params.r());
    assert_eq!(scrypt::Params::RECOMMENDED_P, params.p());
    assert_eq!(scrypt::Params::RECOMMENDED_LEN, KEY_LEN);
}

#[test]
fn keys_are_those_of_scrypt_with_the_default_parameters_but_for_the_cost() {
    let default = scrypt::Params::default();
    let params = scrypt::Params::new(LOG_N, default.r(), default.p(), KEY_LEN).unwrap();
    let mut expected = [0u8; KEY_LEN];
    scrypt::scrypt(b"password", b"testsalt", &params, &mut expected).unwrap();
    assert_eq!(derive_key_at_cost("password", SALT, LOG_N).unwrap(), expected);
}
