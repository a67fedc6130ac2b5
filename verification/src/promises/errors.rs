//! When two errors are the same, and which errors tell what.

use vstd::prelude::*;

use crate::error::{Error, InternalError};

verus! {

/// Whether two errors are of the same kind and carry the same text.
pub open spec fn same_error(a: Error, b: Error) -> bool {
    match (a, b) {
        (Error::Internal { details: x }, Error::Internal { details: y }) => x@ == y@,
        (Error::Component(x), Error::Component(y)) => same_cause(x, y),
        (Error::InvalidBackup, Error::InvalidBackup) => true,
        (
            Error::UnsupportedBackupVersion { version: x },
            Error::UnsupportedBackupVersion { version: y },
        ) => x@ == y@,
        (Error::WrongPassword, Error::WrongPassword) => true,
        (Error::Wallet { details: x }, Error::Wallet { details: y }) => x@ == y@,
        _ => false,
    }
}

/// Whether two causes are of the same kind and carry the same text.
pub open spec fn same_cause(a: InternalError, b: InternalError) -> bool {
    match (a, b) {
        (InternalError::PasswordHashError(x), InternalError::PasswordHashError(y)) => x@ == y@,
        (InternalError::NoPasswordHashError, InternalError::NoPasswordHashError) => true,
        (InternalError::AeadError(x), InternalError::AeadError(y)) => x@ == y@,
        (InternalError::HexError(x), InternalError::HexError(y)) => x@ == y@,
        (InternalError::Base64Error(x), InternalError::Base64Error(y)) => x@ == y@,
        (InternalError::JsonError(x), InternalError::JsonError(y)) => x@ == y@,
        (InternalError::StockError(x), InternalError::StockError(y)) => x@ == y@,
        _ => false,
    }
}

/// Whether `e` says that an operation is not possible, in the words `details`.
pub open spec fn is_internal(e: Error, details: Seq<char>) -> bool {
    e matches Error::Internal { details: text } && text@ == details
}

/// Whether `e` says that something could not be written as JSON.
pub open spec fn is_json_error(e: Error, text: Seq<char>) -> bool {
    e matches Error::Component(InternalError::JsonError(t)) && t@ == text
}

/// Whether `e` says that a part of the stock could not be written or read.
pub open spec fn is_stock_error(e: Error, text: Seq<char>) -> bool {
    e matches Error::Component(InternalError::StockError(t)) && t@ == text
}

/// Whether `e` says that a text is not base64.
pub open spec fn is_base64_error(e: Error, text: Seq<char>) -> bool {
    e matches Error::Component(InternalError::Base64Error(t)) && t@ == text
}

/// Whether `e` says that a nonce is not hexadecimal.
pub open spec fn is_hex_error(e: Error, text: Seq<char>) -> bool {
    e matches Error::Component(InternalError::HexError(t)) && t@ == text
}

/// Whether `e` says that a payload could not be encrypted.
pub open spec fn is_aead_error(e: Error, text: Seq<char>) -> bool {
    e matches Error::Component(InternalError::AeadError(t)) && t@ == text
}

/// Whether `e` says that the password could not be hashed.
pub open spec fn is_password_hash_error(e: Error, text: Seq<char>) -> bool {
    e matches Error::Component(InternalError::PasswordHashError(t)) && t@ == text
}

/// Two errors that contracts do not tell apart are the same, and the other way
/// round.
pub proof fn contracts_tell_errors_apart(a: Error, b: Error)
    ensures
        a@ == b@ <==> same_error(a, b),
{
}

} // verus!
