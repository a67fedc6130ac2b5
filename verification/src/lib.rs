//! Password-protected wallet backups: key derivation, authenticated
//! encryption, the envelope around the ciphertext, and the wallet operations
//! that write and read backups locally or on a versioned storage server.

pub mod base64_text;
pub mod cipher;
pub mod decimal;
pub mod envelope;
pub mod error;
pub mod hexadecimal;
pub mod info;
pub mod laws;
pub mod payload;
pub mod promises;
pub mod stock;
pub mod wallet;
