//! Errors of backup and restore.

use vstd::prelude::*;

verus! {

/// Failures that a user can do nothing about, each with the text of its cause.
///
/// `T` is the type of the texts: `String` in code, `Seq<char>` in contracts.
#[derive(Debug)]
pub enum InternalError<T = String> {
    /// The password could not be hashed, for example because the salt is malformed.
    PasswordHashError(T),
    /// The password hasher returned no hash.
    NoPasswordHashError,
    /// The payload could not be encrypted.
    AeadError(T),
    /// The nonce is not hexadecimal.
    HexError(T),
    /// A part of the RGB stock is not valid base64.
    Base64Error(T),
    /// A value could not be written as JSON.
    JsonError(T),
    /// A part of the RGB stock could not be written or read.
    StockError(T),
}

/// Errors of backup and restore.
///
/// `T` is the type of the texts: `String` in code, `Seq<char>` in contracts.
#[derive(Debug)]
pub enum Error<T = String> {
    /// The operation is not possible in the wallet's present state.
    Internal { details: T },
    /// A component that the backup relies on failed.
    Component(InternalError<T>),
    /// The bytes are not a backup.
    InvalidBackup,
    /// The backup was written in a format version that this library cannot read.
    UnsupportedBackupVersion { version: T },
    /// The ciphertext does not open under the key of the given password.
    WrongPassword,
    /// Another part of the wallet failed.
    Wallet { details: T },
}

impl View for InternalError<String> {
    type V = InternalError<Seq<char>>;

    open spec fn view(&self) -> InternalError<Seq<char>> {
        match self {
            InternalError::PasswordHashError(text) => InternalError::PasswordHashError(text@),
            InternalError::NoPasswordHashError => InternalError::NoPasswordHashError,
            InternalError::AeadError(text) => InternalError::AeadError(text@),
            InternalError::HexError(text) => InternalError::HexError(text@),
            InternalError::Base64Error(text) => InternalError::Base64Error(text@),
            InternalError::JsonError(text) => InternalError::JsonError(text@),
            InternalError::StockError(text) => InternalError::StockError(text@),
        }
    }
}

impl View for Error<String> {
    type V = Error<Seq<char>>;

    open spec fn view(&self) -> Error<Seq<char>> {
        match self {
            Error::Internal { details } => Error::Internal { details: details@ },
            Error::Component(cause) => Error::Component(cause@),
            Error::InvalidBackup => Error::InvalidBackup,
            Error::UnsupportedBackupVersion { version } => Error::UnsupportedBackupVersion {
                version: version@,
            },
            Error::WrongPassword => Error::WrongPassword,
            Error::Wallet { details } => Error::Wallet { details: details@ },
        }
    }
}

/// An error as contracts speak of it.
pub type ErrorView = Error<Seq<char>>;

/// A result as contracts speak of it, where its value is taken as it is.
pub open spec fn result_view<R>(r: Result<R, Error>) -> Result<R, ErrorView> {
    match r {
        Ok(value) => Ok(value),
        Err(e) => Err(e@),
    }
}

/// A result over byte vectors as contracts speak of it.
pub open spec fn bytes_result(r: Result<Vec<u8>, Error>) -> Result<Seq<u8>, ErrorView> {
    match r {
        Ok(bytes) => Ok(bytes@),
        Err(e) => Err(e@),
    }
}

} // verus!
