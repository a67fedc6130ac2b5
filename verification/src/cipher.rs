//! Encryption of the payload under a key derived from the password.

use chacha20poly1305::aead::Aead;
use chacha20poly1305::{KeyInit, XChaCha20Poly1305};
use generic_array::GenericArray;
use scrypt::password_hash::rand_core::OsRng;
use scrypt::password_hash::{PasswordHasher, Salt, SaltString};
use scrypt::{Params, Scrypt};
use vstd::prelude::*;

use crate::base64_text::base64_value;
use crate::decimal::{decimal_text, u8_to_decimal};
use crate::error::{bytes_result, Error, ErrorView, InternalError};
use crate::hexadecimal::{
    hex_bytes, hex_decode, hex_encode, hex_error, hex_reads_back, hex_text, is_hex,
};

verus! {

/// The version of the backup format.
pub const BACKUP_VERSION: u8 = 1;

/// The length of a nonce in bytes.
pub const NONCE_LEN: usize = 24;

/// The length of a key in bytes.
pub const KEY_LEN: usize = 32;

/// The cost of the key derivation: the logarithm to base 2 of scrypt's `N`, at
/// the recommended value.
pub const SCRYPT_LOG_N: u8 = 17;

/// The longest plaintext that the cipher encrypts: as many 64-byte blocks as
/// its 32-bit block counter leaves after the block that gives the tag's key.
pub const MAX_PLAINTEXT: u64 = 274_877_906_816;

/// The public (unencrypted) data stored beside the ciphertext.
///
/// `T` is the type of the texts: `String` in code, `Seq<char>` in contracts.
#[derive(Debug)]
pub struct BackupPubData<T = String> {
    /// The salt of the key derivation, in unpadded base64.
    pub salt: T,
    /// The nonce, in hexadecimal.
    pub nonce: T,
    /// The version of the backup format.
    pub version: u8,
}

impl View for BackupPubData<String> {
    type V = BackupPubData<Seq<char>>;

    open spec fn view(&self) -> BackupPubData<Seq<char>> {
        BackupPubData { salt: self.salt@, nonce: self.nonce@, version: self.version }
    }
}

/// Whether a text can be the salt of the key derivation: 4 to 64 characters of
/// unpadded base64 whose last character has no bits beyond the last byte.
pub open spec fn is_salt(salt: Seq<char>) -> bool {
    &&& 4 <= salt.len() <= 64
    &&& forall|i: int| 0 <= i < salt.len() ==> base64_value(#[trigger] salt[i]) is Some
    &&& salt.len() % 4 != 1
    &&& salt.len() % 4 == 2 ==> base64_value(salt.last())->0 % 16 == 0
    &&& salt.len() % 4 == 3 ==> base64_value(salt.last())->0 % 4 == 0
}

/// The 32 bytes that scrypt, at the cost `log_n` and with its recommended block
/// size and parallelism, derives from a password and the bytes of a salt.
pub uninterp spec fn scrypt_key(password: Seq<char>, salt: Seq<char>, log_n: u8) -> Seq<u8>;

/// The text of the error with which the password hasher refuses `salt`.
pub uninterp spec fn salt_error(salt: Seq<char>) -> Seq<char>;

/// The XChaCha20-Poly1305 ciphertext, with its tag, of `plaintext`.
pub uninterp spec fn xchacha_sealed(key: Seq<u8>, nonce: Seq<u8>, plaintext: Seq<u8>) -> Seq<u8>;

/// The plaintext that `ciphertext` opens to, or `None` if its tag does not match.
pub uninterp spec fn xchacha_opened(key: Seq<u8>, nonce: Seq<u8>, ciphertext: Seq<u8>) -> Option<
    Seq<u8>,
>;

/// Calls `Salt::from_b64`, and on its salt
/// `<Scrypt as PasswordHasher>::hash_password_customized` with the recommended
/// `scrypt::Params` but for the cost. Trusted to accept exactly the texts that
/// `is_salt` describes, to return then a hash of 32 bytes that depends on the
/// password, the salt and the cost alone, and to refuse every other salt with an
/// error whose text depends on that salt alone.
#[verifier::external_body]
fn scrypt_hash(password: &str, salt_b64: &str, log_n: u8) -> (r: Result<
    Option<[u8; KEY_LEN]>,
    String,
>)
    requires
        log_n <= SCRYPT_LOG_N,
    ensures
        match r {
            Ok(hash) => {
                &&& is_salt(salt_b64@)
                &&& hash matches Some(key) && key@ == scrypt_key(password@, salt_b64@, log_n)
            },
            Err(e) => !is_salt(salt_b64@) && e@ == salt_error(salt_b64@),
        },
{
    let salt = Salt::from_b64(salt_b64).map_err(|e| e.to_string())?;
    let (r, p, len) = (Params::RECOMMENDED_R, Params::RECOMMENDED_P, Params::RECOMMENDED_LEN);
    let params = Params::new(log_n, r, p, len).map_err(|e| e.to_string())?;
    let bytes = password.as_bytes();
    let hash = Scrypt
        .hash_password_customized(bytes, None, None, params, salt)
        .map_err(|e| e.to_string())?;
    Ok(hash.hash.map(|out| (*GenericArray::<u8, typenum::U32>::from_slice(out.as_bytes())).into()))
}

/// Calls `SaltString::generate` on the operating system's random numbers.
/// Trusted to return 16 bytes in unpadded base64; nothing is said of which,
/// for they are random. The call does not return where the operating system
/// has no random numbers to give.
#[verifier::external_body]
pub(crate) fn random_salt() -> (salt: String)
    ensures
        is_salt(salt@),
        salt@.len() == 22,
{
    SaltString::generate(&mut OsRng).to_string()
}

/// Calls `getrandom::getrandom` on a nonce. Nothing is said of the bytes, for
/// they are random, nor of the text of the error, which the operating system
/// decides.
#[verifier::external_body]
pub(crate) fn random_nonce() -> (r: Result<[u8; NONCE_LEN], String>) {
    let mut nonce = [0u8; NONCE_LEN];
    getrandom::getrandom(&mut nonce).map(|_| nonce).map_err(|e| e.to_string())
}

/// The lengths of plaintext on which the cipher either works or returns an
/// error. On the few lengths that this leaves out it accepts the plaintext and
/// then panics for want of blocks.
pub open spec fn cipher_takes(len: int) -> bool {
    len <= MAX_PLAINTEXT || len >= MAX_PLAINTEXT + 64
}

/// Calls `Aead::encrypt` of `XChaCha20Poly1305`. Trusted to refuse exactly the
/// plaintexts that are too long, always with the same text, and to turn every
/// other plaintext into a ciphertext that is 16 bytes longer, that depends on
/// the key, the nonce and the plaintext alone, and that opens to the plaintext.
#[verifier::external_body]
fn xchacha_encrypt(key: &[u8; KEY_LEN], nonce: &[u8; NONCE_LEN], plaintext: &[u8]) -> (r: Result<
    Vec<u8>,
    String,
>)
    requires
        cipher_takes(plaintext@.len() as int),
    ensures
        match r {
            Ok(ciphertext) => {
                &&& plaintext@.len() <= MAX_PLAINTEXT
                &&& ciphertext@ == xchacha_sealed(key@, nonce@, plaintext@)
                &&& ciphertext@.len() == plaintext@.len() + 16
                &&& xchacha_opened(key@, nonce@, ciphertext@) == Some(plaintext@)
            },
            Err(e) => plaintext@.len() > MAX_PLAINTEXT && e@ == "aead::Error"@,
        },
{
    let cipher = XChaCha20Poly1305::new(GenericArray::from_slice(key));
    cipher.encrypt(GenericArray::from_slice(nonce), plaintext).map_err(|e| e.to_string())
}

/// Calls `Aead::decrypt` of `XChaCha20Poly1305`. Trusted to return a plaintext
/// or an error as the key, the nonce and the ciphertext alone decide, and to
/// return a plaintext only where encrypting it again gives the ciphertext, which
/// is 16 bytes longer.
#[verifier::external_body]
fn xchacha_decrypt(key: &[u8; KEY_LEN], nonce: &[u8], ciphertext: &[u8]) -> (r: Option<Vec<u8>>)
    requires
        nonce@.len() == NONCE_LEN,
        cipher_takes(ciphertext@.len() - 16),
    ensures
        match r {
            Some(plaintext) => {
                &&& xchacha_opened(key@, nonce@, ciphertext@) == Some(plaintext@)
                &&& xchacha_sealed(key@, nonce@, plaintext@) == ciphertext@
                &&& ciphertext@.len() == plaintext@.len() + 16
            },
            None => xchacha_opened(key@, nonce@, ciphertext@) is None,
        },
{
    let cipher = XChaCha20Poly1305::new(GenericArray::from_slice(key));
    cipher.decrypt(GenericArray::from_slice(nonce), ciphertext).ok()
}

/// The key of a password and a salt at the cost `log_n`.
pub open spec fn key_at_cost(password: Seq<char>, salt: Seq<char>, log_n: u8) -> Result<
    Seq<u8>,
    ErrorView,
> {
    if is_salt(salt) {
        Ok(scrypt_key(password, salt, log_n))
    } else {
        Err(ErrorView::Component(InternalError::PasswordHashError(salt_error(salt))))
    }
}

/// The key of a password and a salt.
pub open spec fn key_of(password: Seq<char>, salt: Seq<char>) -> Result<Seq<u8>, ErrorView> {
    key_at_cost(password, salt, SCRYPT_LOG_N)
}

/// A derived key as contracts speak of it.
pub open spec fn key_result(r: Result<[u8; KEY_LEN], Error>) -> Result<Seq<u8>, ErrorView> {
    match r {
        Ok(key) => Ok(key@),
        Err(e) => Err(e@),
    }
}

/// Derives a 32-byte key from a password and a salt, at a cost up to the
/// recommended one.
pub fn derive_key_at_cost(password: &str, salt_b64: &str, log_n: u8) -> (r: Result<
    [u8; KEY_LEN],
    Error,
>)
    requires
        log_n <= SCRYPT_LOG_N,
    ensures
        key_result(r) == key_at_cost(password@, salt_b64@, log_n),
{
    match scrypt_hash(password, salt_b64, log_n) {
        Ok(Some(key)) => Ok(key),
        Ok(None) => Err(Error::Component(InternalError::NoPasswordHashError)),
        Err(e) => Err(Error::Component(InternalError::PasswordHashError(e))),
    }
}

/// Derives a 32-byte key from a password and a salt.
pub fn derive_key(password: &str, salt_b64: &str) -> (r: Result<[u8; KEY_LEN], Error>)
    ensures
        key_result(r) == key_of(password@, salt_b64@),
{
    derive_key_at_cost(password, salt_b64, SCRYPT_LOG_N)
}

/// The error of a failing random number generator.
pub open spec fn rng_unavailable(text: Seq<char>) -> ErrorView {
    ErrorView::Internal { details: "RNG unavailable: "@ + text }
}

/// The ciphertext of a payload under a key, and the public data to store beside
/// it. The nonce may be missing for want of random numbers.
pub open spec fn sealed(
    plaintext: Seq<u8>,
    key: Seq<u8>,
    salt: Seq<char>,
    nonce: Result<Seq<u8>, Seq<char>>,
) -> Result<(Seq<u8>, BackupPubData<Seq<char>>), ErrorView> {
    match nonce {
        Err(text) => Err(rng_unavailable(text)),
        Ok(nonce) => if plaintext.len() > MAX_PLAINTEXT {
            Err(ErrorView::Component(InternalError::AeadError("aead::Error"@)))
        } else {
            Ok(
                (
                    xchacha_sealed(key, nonce, plaintext),
                    BackupPubData { salt, nonce: hex_text(nonce), version: BACKUP_VERSION },
                ),
            )
        },
    }
}

/// What a ciphertext holds under a key and a nonce in hexadecimal.
pub open spec fn unsealed(ciphertext: Seq<u8>, key: Seq<u8>, nonce: Seq<char>) -> Result<
    Seq<u8>,
    ErrorView,
> {
    if !is_hex(nonce) {
        Err(ErrorView::Component(InternalError::HexError(hex_error(nonce))))
    } else {
        match xchacha_opened(key, hex_bytes(nonce), ciphertext) {
            Some(plaintext) => Ok(plaintext),
            None => Err(ErrorView::WrongPassword),
        }
    }
}

/// Whether the nonce and the ciphertext have lengths that the cipher takes,
/// where the nonce is hexadecimal at all.
pub open spec fn unsealable(ciphertext: Seq<u8>, nonce: Seq<char>) -> bool {
    is_hex(nonce) ==> nonce.len() == 2 * NONCE_LEN && cipher_takes(ciphertext.len() - 16)
}

/// A nonce as contracts speak of it.
pub open spec fn nonce_result(nonce: Result<[u8; NONCE_LEN], String>) -> Result<
    Seq<u8>,
    Seq<char>,
> {
    match nonce {
        Ok(nonce) => Ok(nonce@),
        Err(text) => Err(text@),
    }
}

/// A result of encryption as contracts speak of it.
pub open spec fn sealed_result(r: Result<(Vec<u8>, BackupPubData), Error>) -> Result<
    (Seq<u8>, BackupPubData<Seq<char>>),
    ErrorView,
> {
    match r {
        Ok((ciphertext, pub_data)) => Ok((ciphertext@, pub_data@)),
        Err(e) => Err(e@),
    }
}

/// Encrypts a payload under the key that was derived with `salt`.
///
/// What comes out opens again, under the same key, to the payload.
pub fn seal_payload(
    plaintext: &[u8],
    key: &[u8; KEY_LEN],
    salt: String,
    nonce: Result<[u8; NONCE_LEN], String>,
) -> (r: Result<(Vec<u8>, BackupPubData), Error>)
    requires
        cipher_takes(plaintext@.len() as int),
    ensures
        sealed_result(r) == sealed(plaintext@, key@, salt@, nonce_result(nonce)),
        match r {
            Ok((ciphertext, pub_data)) => {
                &&& ciphertext@.len() == plaintext@.len() + 16
                &&& unsealable(ciphertext@, pub_data.nonce@)
                &&& unsealed(ciphertext@, key@, pub_data.nonce@) == Ok::<_, ErrorView>(plaintext@)
            },
            Err(_) => true,
        },
{
    let nonce = match nonce {
        Ok(nonce) => nonce,
        Err(text) => {
            let mut details = "RNG unavailable: ".to_owned();
            details.append(text.as_str());
            return Err(Error::Internal { details });
        },
    };
    let ciphertext = match xchacha_encrypt(key, &nonce, plaintext) {
        Ok(ciphertext) => ciphertext,
        Err(e) => {
            return Err(Error::Component(InternalError::AeadError(e)));
        },
    };
    proof {
        hex_reads_back(nonce@);
    }
    let pub_data = BackupPubData {
        salt,
        nonce: hex_encode(nonce.as_slice()),
        version: BACKUP_VERSION,
    };
    Ok((ciphertext, pub_data))
}

/// Whether `ciphertext` is what encrypting `plaintext` gives, under a key and a
/// nonce in hexadecimal.
pub open spec fn is_sealing(
    ciphertext: Seq<u8>,
    key: Seq<u8>,
    nonce: Seq<char>,
    plaintext: Seq<u8>,
) -> bool {
    &&& is_hex(nonce)
    &&& ciphertext == xchacha_sealed(key, hex_bytes(nonce), plaintext)
    &&& ciphertext.len() == plaintext.len() + 16
}

/// Opens a ciphertext under a key and a nonce in hexadecimal.
///
/// Only what encrypting a plaintext under that key and that nonce gives opens.
pub fn unseal_payload(ciphertext: &[u8], key: &[u8; KEY_LEN], nonce: &str) -> (r: Result<
    Vec<u8>,
    Error,
>)
    requires
        unsealable(ciphertext@, nonce@),
    ensures
        bytes_result(r) == unsealed(ciphertext@, key@, nonce@),
        r matches Ok(plaintext) ==> is_sealing(ciphertext@, key@, nonce@, plaintext@),
{
    let nonce = match hex_decode(nonce) {
        Ok(nonce) => nonce,
        Err(e) => {
            return Err(Error::Component(InternalError::HexError(e)));
        },
    };
    match xchacha_decrypt(key, nonce.as_slice(), ciphertext) {
        Some(plaintext) => Ok(plaintext),
        None => Err(Error::WrongPassword),
    }
}

/// What decrypting a ciphertext gives, with a key derived at the cost `log_n`.
pub open spec fn decrypted_at_cost(
    ciphertext: Seq<u8>,
    password: Seq<char>,
    pub_data: BackupPubData<Seq<char>>,
    log_n: u8,
) -> Result<Seq<u8>, ErrorView> {
    if pub_data.version != BACKUP_VERSION {
        Err(ErrorView::UnsupportedBackupVersion { version: decimal_text(pub_data.version as nat) })
    } else {
        match key_at_cost(password, pub_data.salt, log_n) {
            Err(e) => Err(e),
            Ok(key) => unsealed(ciphertext, key, pub_data.nonce),
        }
    }
}

/// What decrypting a ciphertext gives.
pub open spec fn decrypted(
    ciphertext: Seq<u8>,
    password: Seq<char>,
    pub_data: BackupPubData<Seq<char>>,
) -> Result<Seq<u8>, ErrorView> {
    decrypted_at_cost(ciphertext, password, pub_data, SCRYPT_LOG_N)
}

/// Whether the nonce and the ciphertext have lengths that the cipher takes,
/// where decryption gets as far as the cipher.
pub open spec fn fits_cipher(ciphertext: Seq<u8>, pub_data: BackupPubData<Seq<char>>) -> bool {
    pub_data.version == BACKUP_VERSION && is_salt(pub_data.salt) ==> unsealable(
        ciphertext,
        pub_data.nonce,
    )
}

/// Whether `salt` is one that the random number generator gave.
pub closed spec fn is_drawn_salt(salt: String) -> bool {
    call_ensures(random_salt, (), salt)
}

/// Whether `nonce` is what asking the random number generator for one came to.
pub closed spec fn is_drawn_nonce(nonce: Result<[u8; NONCE_LEN], String>) -> bool {
    call_ensures(random_nonce, (), nonce)
}

/// What counts as drawn is what the random number generator gave.
pub(crate) proof fn drawn_is_given(salt: String, nonce: Result<[u8; NONCE_LEN], String>)
    ensures
        is_drawn_salt(salt) ==> call_ensures(random_salt, (), salt),
        is_drawn_nonce(nonce) ==> call_ensures(random_nonce, (), nonce),
{
}

/// What encrypting under a random salt and a random nonce can come to, with a
/// key derived at the cost `log_n`.
///
/// It is the encryption of the plaintext under the salt and the nonce that were
/// drawn, and it decrypts to the plaintext. Short of a plaintext that is too
/// long, it fails only where no nonce could be drawn.
pub open spec fn seals_at_cost(
    plaintext: Seq<u8>,
    password: Seq<char>,
    log_n: u8,
    r: Result<(Seq<u8>, BackupPubData<Seq<char>>), ErrorView>,
) -> bool {
    &&& exists|salt: String, nonce: Result<[u8; NONCE_LEN], String>| #[trigger]
        is_drawn_salt(salt) && #[trigger] is_drawn_nonce(nonce) && is_salt(salt@) && salt@.len()
            == 22 && r == sealed(
            plaintext,
            scrypt_key(password, salt@, log_n),
            salt@,
            nonce_result(nonce),
        )
    &&& match r {
        Ok((ciphertext, pub_data)) => {
            &&& ciphertext.len() == plaintext.len() + 16
            &&& fits_cipher(ciphertext, pub_data)
            &&& decrypted_at_cost(ciphertext, password, pub_data, log_n) == Ok::<_, ErrorView>(
                plaintext,
            )
        },
        Err(_) => true,
    }
}

/// What encrypting under a random salt and a random nonce can come to.
pub open spec fn seals(
    plaintext: Seq<u8>,
    password: Seq<char>,
    r: Result<(Seq<u8>, BackupPubData<Seq<char>>), ErrorView>,
) -> bool {
    seals_at_cost(plaintext, password, SCRYPT_LOG_N, r)
}

/// Encrypts a payload under a salt and a nonce drawn at random, with a key
/// derived at a cost up to the recommended one.
pub fn encrypt_payload_at_cost(plaintext: &[u8], password: &str, log_n: u8) -> (r: Result<
    (Vec<u8>, BackupPubData),
    Error,
>)
    requires
        cipher_takes(plaintext@.len() as int),
        log_n <= SCRYPT_LOG_N,
    ensures
        seals_at_cost(plaintext@, password@, log_n, sealed_result(r)),
{
    let salt = random_salt();
    let key = match derive_key_at_cost(password, salt.as_str(), log_n) {
        Ok(key) => key,
        Err(e) => {
            return Err(e);
        },
    };
    let nonce = random_nonce();
    assert(is_drawn_salt(salt) && is_drawn_nonce(nonce));
    seal_payload(plaintext, &key, salt, nonce)
}

/// Encrypts a payload under a salt and a nonce drawn at random.
pub fn encrypt_payload(plaintext: &[u8], password: &str) -> (r: Result<
    (Vec<u8>, BackupPubData),
    Error,
>)
    requires
        cipher_takes(plaintext@.len() as int),
    ensures
        seals(plaintext@, password@, sealed_result(r)),
{
    encrypt_payload_at_cost(plaintext, password, SCRYPT_LOG_N)
}

/// Decrypts a ciphertext with a key derived at a cost up to the recommended
/// one.
pub fn decrypt_payload_at_cost(
    ciphertext: &[u8],
    password: &str,
    pub_data: &BackupPubData,
    log_n: u8,
) -> (r: Result<Vec<u8>, Error>)
    requires
        fits_cipher(ciphertext@, pub_data@),
        log_n <= SCRYPT_LOG_N,
    ensures
        bytes_result(r) == decrypted_at_cost(ciphertext@, password@, pub_data@, log_n),
        r matches Ok(plaintext) ==> is_sealing(
            ciphertext@,
            scrypt_key(password@, pub_data.salt@, log_n),
            pub_data.nonce@,
            plaintext@,
        ),
{
    if pub_data.version != BACKUP_VERSION {
        return Err(
            Error::UnsupportedBackupVersion { version: u8_to_decimal(pub_data.version) },
        );
    }
    match derive_key_at_cost(password, pub_data.salt.as_str(), log_n) {
        Ok(key) => unseal_payload(ciphertext, &key, pub_data.nonce.as_str()),
        Err(e) => Err(e),
    }
}

/// Decrypts a ciphertext.
pub fn decrypt_payload(ciphertext: &[u8], password: &str, pub_data: &BackupPubData) -> (r: Result<
    Vec<u8>,
    Error,
>)
    requires
        fits_cipher(ciphertext@, pub_data@),
    ensures
        bytes_result(r) == decrypted(ciphertext@, password@, pub_data@),
        r matches Ok(plaintext) ==> is_sealing(
            ciphertext@,
            scrypt_key(password@, pub_data.salt@, SCRYPT_LOG_N),
            pub_data.nonce@,
            plaintext@,
        ),
{
    decrypt_payload_at_cost(ciphertext, password, pub_data, SCRYPT_LOG_N)
}

/// The six bits that a character of the base64 alphabet stands for.
fn base64_bits(c: char) -> (v: Option<u32>)
    ensures
        match v {
            Some(v) => base64_value(c) == Some(v as int),
            None => base64_value(c) is None,
        },
{
    if 'A' <= c && c <= 'Z' {
        Some(c as u32 - 'A' as u32)
    } else if 'a' <= c && c <= 'z' {
        Some(c as u32 - 'a' as u32 + 26)
    } else if '0' <= c && c <= '9' {
        Some(c as u32 - '0' as u32 + 52)
    } else if c == '+' {
        Some(62)
    } else if c == '/' {
        Some(63)
    } else {
        None
    }
}

/// Tells whether a text can be the salt of the key derivation.
pub fn is_valid_salt(salt: &str) -> (r: bool)
    ensures
        r == is_salt(salt@),
{
    let n: usize = salt.unicode_len();
    if n < 4 || n > 64 || n % 4 == 1 {
        return false;
    }
    let mut last: u32 = 0;
    for i in 0..n
        invariant
            n == salt@.len(),
            forall|j: int| 0 <= j < i ==> base64_value(#[trigger] salt@[j]) is Some,
            i > 0 ==> base64_value(salt@[i - 1]) == Some(last as int),
    {
        match base64_bits(salt.get_char(i)) {
            Some(v) => {
                last = v;
            },
            None => {
                return false;
            },
        }
    }
    (n % 4 != 2 || last % 16 == 0) && (n % 4 != 3 || last % 4 == 0)
}

/// Tells whether `decrypt_payload` can be called.
pub fn can_decrypt(ciphertext: &[u8], pub_data: &BackupPubData) -> (r: bool)
    ensures
        r == fits_cipher(ciphertext@, pub_data@),
{
    if pub_data.version != BACKUP_VERSION || !is_valid_salt(pub_data.salt.as_str()) {
        return true;
    }
    match hex_decode(pub_data.nonce.as_str()) {
        Ok(nonce) => nonce.len() == NONCE_LEN && can_encrypt_len(
            ciphertext.len().saturating_sub(16),
        ),
        Err(_) => true,
    }
}

/// Tells whether `encrypt_payload` can be called on a plaintext of `len` bytes.
pub fn can_encrypt_len(len: usize) -> (r: bool)
    ensures
        r == cipher_takes(len as int),
{
    len as u64 <= MAX_PLAINTEXT || len as u64 >= MAX_PLAINTEXT + 64
}

} // verus!
