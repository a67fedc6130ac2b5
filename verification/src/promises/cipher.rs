//! Deriving keys, encrypting and decrypting.

use vstd::prelude::*;

use crate::cipher::{
    can_decrypt, can_encrypt_len, decrypt_payload, decrypt_payload_at_cost, derive_key,
    derive_key_at_cost, encrypt_payload, encrypt_payload_at_cost, is_drawn_nonce, is_drawn_salt,
    is_salt, is_valid_salt, salt_error, scrypt_key, seal_payload,
    unseal_payload, xchacha_opened, xchacha_sealed, BackupPubData,
};
use crate::error::Error;
use crate::hexadecimal::{hex_bytes, hex_error, hex_text, is_hex};
use crate::promises::errors::{is_aead_error, is_hex_error, is_internal, is_password_hash_error};

verus! {

/// A key is what scrypt derives at the given cost from the password and a valid
/// salt; any other salt is refused. Every password and every salt may be given,
/// and every cost up to 17.
pub proof fn key_is_what_scrypt_derives(
    password: &str,
    salt: &str,
    log_n: u8,
    r: Result<[u8; 32], Error>,
)
    requires
        call_ensures(derive_key_at_cost, (password, salt, log_n), r),
    ensures
        r is Ok <==> is_salt(salt@),
        r is Ok ==> r->Ok_0@ == scrypt_key(password@, salt@, log_n),
        r is Err ==> is_password_hash_error(r->Err_0, salt_error(salt@)),
        log_n <= 17 ==> call_requires(derive_key_at_cost, (password, salt, log_n)),
{
}

/// Keys are derived at cost 17 unless another cost is asked for, and the same
/// password and salt always have the same key.
pub proof fn keys_are_derived_at_full_cost(
    password: &str,
    salt: &str,
    r: Result<[u8; 32], Error>,
    again: Result<[u8; 32], Error>,
    at_cost: Result<[u8; 32], Error>,
)
    requires
        call_ensures(derive_key, (password, salt), r),
        call_ensures(derive_key, (password, salt), again),
        call_ensures(derive_key_at_cost, (password, salt, 17u8), at_cost),
    ensures
        r is Ok <==> is_salt(salt@),
        r is Ok ==> r->Ok_0@ == scrypt_key(password@, salt@, 17u8),
        r is Err ==> is_password_hash_error(r->Err_0, salt_error(salt@)),
        r is Ok ==> again is Ok && at_cost is Ok && again->Ok_0@ == r->Ok_0@ && at_cost->Ok_0@
            == r->Ok_0@,
        call_requires(derive_key, (password, salt)),
{
}

/// Every plaintext up to the cipher's limit is sealed if there is a nonce: under
/// the key and that nonce, with the salt and the nonce told beside it.
pub proof fn sealing_succeeds_up_to_the_limit(
    plaintext: &[u8],
    key: &[u8; 32],
    salt: String,
    nonce: Result<[u8; 24], String>,
    r: Result<(Vec<u8>, BackupPubData), Error>,
)
    requires
        call_ensures(seal_payload, (plaintext, key, salt, nonce), r),
        plaintext@.len() <= 274_877_906_816,
        nonce is Ok,
    ensures
        r is Ok,
        r->Ok_0.0@ == xchacha_sealed(key@, nonce->Ok_0@, plaintext@),
        r->Ok_0.0@.len() == plaintext@.len() + 16,
        r->Ok_0.1.salt@ == salt@,
        r->Ok_0.1.nonce@ == hex_text(nonce->Ok_0@),
        r->Ok_0.1.version == 1,
        call_requires(seal_payload, (plaintext, key, salt, nonce)),
{
}

/// Sealing fails only for want of a nonce, which is reported with its cause, or
/// on a plaintext beyond the cipher's limit.
pub proof fn sealing_fails_only_with_a_reason(
    plaintext: &[u8],
    key: &[u8; 32],
    salt: String,
    nonce: Result<[u8; 24], String>,
    r: Result<(Vec<u8>, BackupPubData), Error>,
)
    requires
        call_ensures(seal_payload, (plaintext, key, salt, nonce), r),
        nonce is Err || plaintext@.len() > 274_877_906_816,
    ensures
        r is Err,
        nonce is Err ==> is_internal(r->Err_0, "RNG unavailable: "@ + nonce->Err_0@),
        nonce is Ok ==> is_aead_error(r->Err_0, "aead::Error"@),
        plaintext@.len() <= 274_877_906_816 ==> call_requires(
            seal_payload,
            (plaintext, key, salt, nonce),
        ),
{
}

/// What was sealed opens, under the same key and with the nonce told beside it,
/// to the plaintext.
pub proof fn unsealing_undoes_sealing(
    plaintext: &[u8],
    key: &[u8; 32],
    salt: String,
    nonce: Result<[u8; 24], String>,
    sealed: (Vec<u8>, BackupPubData),
    ciphertext: &[u8],
    nonce_text: &str,
    r: Result<Vec<u8>, Error>,
)
    requires
        call_ensures(seal_payload, (plaintext, key, salt, nonce), Ok(sealed)),
        ciphertext@ == sealed.0@,
        nonce_text@ == sealed.1.nonce@,
        call_ensures(unseal_payload, (ciphertext, key, nonce_text), r),
    ensures
        r is Ok,
        r->Ok_0@ == plaintext@,
        call_requires(unseal_payload, (ciphertext, key, nonce_text)),
{
}

/// A ciphertext opens to what the cipher opens it to. One that the cipher does
/// not open is answered with a wrong password, and a nonce that is not
/// hexadecimal with its error. Whatever opens is the sealing of what it opens to.
pub proof fn unsealing_tells_what_the_cipher_opens(
    ciphertext: &[u8],
    key: &[u8; 32],
    nonce: &str,
    r: Result<Vec<u8>, Error>,
)
    requires
        call_ensures(unseal_payload, (ciphertext, key, nonce), r),
    ensures
        !is_hex(nonce@) ==> r is Err && is_hex_error(r->Err_0, hex_error(nonce@)),
        is_hex(nonce@) && xchacha_opened(key@, hex_bytes(nonce@), ciphertext@) is None ==> r is Err
            && r->Err_0 is WrongPassword,
        is_hex(nonce@) && xchacha_opened(key@, hex_bytes(nonce@), ciphertext@) is Some ==> r is Ok
            && xchacha_opened(key@, hex_bytes(nonce@), ciphertext@) == Some(r->Ok_0@),
        r is Ok ==> ciphertext@ == xchacha_sealed(key@, hex_bytes(nonce@), r->Ok_0@)
            && ciphertext@.len() == r->Ok_0@.len() + 16,
        !is_hex(nonce@) || nonce@.len() == 48 && ciphertext@.len() <= 274_877_906_832
            ==> call_requires(unseal_payload, (ciphertext, key, nonce)),
{
}

/// Whether `ciphertext` is the encryption of a plaintext, under the key derived
/// from the password at the given cost, with a salt and a nonce that were drawn.
pub open spec fn is_fresh_sealing(
    plaintext: Seq<u8>,
    password: Seq<char>,
    log_n: u8,
    ciphertext: Seq<u8>,
    pub_data: BackupPubData,
    salt: String,
    nonce: Result<[u8; 24], String>,
) -> bool {
    &&& is_drawn_salt(salt)
    &&& is_drawn_nonce(nonce)
    &&& nonce is Ok
    &&& is_salt(salt@)
    &&& pub_data.salt@ == salt@
    &&& pub_data.nonce@ == hex_text(nonce->Ok_0@)
    &&& pub_data.version == 1
    &&& ciphertext == xchacha_sealed(
        scrypt_key(password, salt@, log_n),
        nonce->Ok_0@,
        plaintext,
    )
    &&& ciphertext.len() == plaintext.len() + 16
}

/// Encryption succeeds on every plaintext up to the cipher's limit unless no
/// nonce can be drawn, which is then reported. It seals the plaintext under a
/// drawn salt and a drawn nonce.
pub proof fn encryption_succeeds_up_to_the_limit(
    plaintext: &[u8],
    password: &str,
    log_n: u8,
    r: Result<(Vec<u8>, BackupPubData), Error>,
)
    requires
        ({
            ||| call_ensures(encrypt_payload_at_cost, (plaintext, password, log_n), r)
            ||| log_n == 17 && call_ensures(encrypt_payload, (plaintext, password), r)
        }),
        plaintext@.len() <= 274_877_906_816,
    ensures
        r is Err ==> exists|nonce: Result<[u8; 24], String>| #[trigger]
            is_drawn_nonce(nonce) && nonce is Err && is_internal(
                r->Err_0,
                "RNG unavailable: "@ + nonce->Err_0@,
            ),
        r is Ok ==> exists|salt: String, nonce: Result<[u8; 24], String>| #[trigger]
            is_fresh_sealing(
                plaintext@,
                password@,
                log_n,
                r->Ok_0.0@,
                r->Ok_0.1,
                salt,
                nonce,
            ),
        log_n <= 17 ==> call_requires(encrypt_payload_at_cost, (plaintext, password, log_n)),
        call_requires(encrypt_payload, (plaintext, password)),
{
    let (salt, nonce) = choose|salt: String, nonce: Result<[u8; 24], String>|
        {
            &&& #[trigger] is_drawn_salt(salt)
            &&& #[trigger] is_drawn_nonce(nonce)
            &&& nonce is Err ==> r is Err && is_internal(
                r->Err_0,
                "RNG unavailable: "@ + nonce->Err_0@,
            )
            &&& nonce is Ok ==> r is Ok && is_fresh_sealing(
                plaintext@,
                password@,
                log_n,
                r->Ok_0.0@,
                r->Ok_0.1,
                salt,
                nonce,
            )
        };
    if nonce is Ok {
        assert(is_fresh_sealing(
                plaintext@,
                password@,
                log_n,
                r->Ok_0.0@,
                r->Ok_0.1,
                salt,
                nonce,
            ));
    }
}

/// Encryption fails on every plaintext beyond the cipher's limit, as such or for
/// want of a nonce, and is allowed on all but the 63 lengths behind the limit.
pub proof fn encryption_fails_beyond_the_limit(
    plaintext: &[u8],
    password: &str,
    r: Result<(Vec<u8>, BackupPubData), Error>,
)
    requires
        call_ensures(encrypt_payload, (plaintext, password), r),
        plaintext@.len() > 274_877_906_816,
    ensures
        r is Err,
        is_aead_error(r->Err_0, "aead::Error"@) || exists|nonce: Result<[u8; 24], String>|
            #[trigger]
            is_drawn_nonce(nonce) && nonce is Err && is_internal(
                r->Err_0,
                "RNG unavailable: "@ + nonce->Err_0@,
            ),
        plaintext@.len() >= 274_877_906_880 ==> call_requires(
            encrypt_payload,
            (plaintext, password),
        ),
{
}

/// Decrypting what was encrypted, with the same password and at the same cost,
/// gives the plaintext, and is allowed.
pub proof fn decryption_undoes_encryption(
    plaintext: &[u8],
    password: &str,
    log_n: u8,
    sealed: (Vec<u8>, BackupPubData),
    ciphertext: &[u8],
    pub_data: &BackupPubData,
    r: Result<Vec<u8>, Error>,
)
    requires
        ({
            ||| call_ensures(encrypt_payload_at_cost, (plaintext, password, log_n), Ok(sealed))
            ||| log_n == 17 && call_ensures(encrypt_payload, (plaintext, password), Ok(sealed))
        }),
        ciphertext@ == sealed.0@,
        pub_data.salt@ == sealed.1.salt@,
        pub_data.nonce@ == sealed.1.nonce@,
        pub_data.version == sealed.1.version,
        ({
            ||| call_ensures(decrypt_payload_at_cost, (ciphertext, password, pub_data, log_n), r)
            ||| log_n == 17 && call_ensures(decrypt_payload, (ciphertext, password, pub_data), r)
        }),
    ensures
        r is Ok,
        r->Ok_0@ == plaintext@,
        log_n <= 17 ==> call_requires(
            decrypt_payload_at_cost,
            (ciphertext, password, pub_data, log_n),
        ),
        call_requires(decrypt_payload, (ciphertext, password, pub_data)),
{
}

/// Decryption asks for the present format version, then for a valid salt, then
/// for a nonce in hexadecimal, and then opens the ciphertext under the key of the
/// password. The first of these that fails is reported, and a ciphertext that
/// does not open as a wrong password.
pub proof fn decryption_opens_only_under_the_password(
    ciphertext: &[u8],
    password: &str,
    pub_data: &BackupPubData,
    log_n: u8,
    r: Result<Vec<u8>, Error>,
)
    requires
        ({
            ||| call_ensures(decrypt_payload_at_cost, (ciphertext, password, pub_data, log_n), r)
            ||| log_n == 17 && call_ensures(decrypt_payload, (ciphertext, password, pub_data), r)
        }),
    ensures
        ({
            let key = scrypt_key(password@, pub_data.salt@, log_n);
            let nonce = pub_data.nonce@;
            let opened = xchacha_opened(key, hex_bytes(nonce), ciphertext@);
            &&& pub_data.version != 1 ==> r is Err && r->Err_0 is UnsupportedBackupVersion
            &&& pub_data.version == 1 && !is_salt(pub_data.salt@) ==> r is Err
                && is_password_hash_error(r->Err_0, salt_error(pub_data.salt@))
            &&& pub_data.version == 1 && is_salt(pub_data.salt@) && !is_hex(nonce) ==> r is Err
                && is_hex_error(r->Err_0, hex_error(nonce))
            &&& pub_data.version == 1 && is_salt(pub_data.salt@) && is_hex(nonce) && opened is None
                ==> r is Err && r->Err_0 is WrongPassword
            &&& pub_data.version == 1 && is_salt(pub_data.salt@) && is_hex(nonce) && opened is Some
                ==> r is Ok && opened == Some(r->Ok_0@)
            &&& r is Ok ==> pub_data.version == 1 && is_salt(pub_data.salt@) && is_hex(nonce)
                && ciphertext@ == xchacha_sealed(key, hex_bytes(nonce), r->Ok_0@)
                && ciphertext@.len() == r->Ok_0@.len() + 16
        }),
{
}

/// A version that is refused is told by its decimal digits.
pub proof fn refused_version_is_told(
    ciphertext: &[u8],
    password: &str,
    pub_data: &BackupPubData,
    r: Result<Vec<u8>, Error>,
    text: String,
)
    requires
        call_ensures(decrypt_payload, (ciphertext, password, pub_data), r),
        pub_data.version != 1,
        call_ensures(crate::decimal::u8_to_decimal, (pub_data.version,), text),
    ensures
        r is Err,
        r->Err_0 matches Error::UnsupportedBackupVersion { version } && version@ == text@,
{
}

/// Decryption is allowed on every version, salt and nonce, but for a nonce that
/// is hexadecimal of the wrong length and a ciphertext beyond the cipher's limit,
/// where it would get as far as the cipher.
pub proof fn decryption_is_allowed(
    ciphertext: &[u8],
    password: &str,
    pub_data: &BackupPubData,
    log_n: u8,
)
    requires
        ({
            ||| pub_data.version != 1
            ||| !is_salt(pub_data.salt@)
            ||| !is_hex(pub_data.nonce@)
            ||| pub_data.nonce@.len() == 48 && ciphertext@.len() <= 274_877_906_832
        }),
        log_n <= 17,
    ensures
        call_requires(decrypt_payload, (ciphertext, password, pub_data)),
        call_requires(decrypt_payload_at_cost, (ciphertext, password, pub_data, log_n)),
{
}

/// A salt is said to be valid exactly if a key can be derived with it.
pub proof fn valid_salts_have_keys(
    password: &str,
    salt: &str,
    valid: bool,
    r: Result<[u8; 32], Error>,
)
    requires
        call_ensures(is_valid_salt, (salt,), valid),
        call_ensures(derive_key, (password, salt), r),
    ensures
        valid == (r is Ok),
        call_requires(is_valid_salt, (salt,)),
{
}

/// A backup that is said to be decryptable may be given to decryption, and one
/// that is not has a hexadecimal nonce of the wrong length or a ciphertext at
/// the cipher's limit.
pub proof fn decryptable_backups_may_be_decrypted(
    ciphertext: &[u8],
    password: &str,
    pub_data: &BackupPubData,
    able: bool,
)
    requires
        call_ensures(can_decrypt, (ciphertext, pub_data), able),
    ensures
        able ==> call_requires(decrypt_payload, (ciphertext, password, pub_data)),
        !able ==> pub_data.version == 1 && is_salt(pub_data.salt@) && is_hex(pub_data.nonce@) && (
        pub_data.nonce@.len() != 48 || 274_877_906_832 < ciphertext@.len() < 274_877_906_896),
{
}

/// A length that is said to be encryptable may be given to encryption, and only
/// the 63 lengths behind the cipher's limit are not.
pub proof fn encryptable_lengths_may_be_encrypted(plaintext: &[u8], password: &str, able: bool)
    requires
        call_ensures(can_encrypt_len, (plaintext@.len() as usize,), able),
        plaintext@.len() <= usize::MAX,
    ensures
        able ==> call_requires(encrypt_payload, (plaintext, password)),
        !able <==> 274_877_906_816 < plaintext@.len() < 274_877_906_880,
{
}

} // verus!
