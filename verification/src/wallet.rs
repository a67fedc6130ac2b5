//! The wallet operations that write and read backups.
//!
//! What the wallet needs from its surroundings comes in as arguments: how a
//! value is written as JSON and read from it, how the times of backups are
//! updated, and how a snapshot is restored. Where an operation waits for the
//! backup server, it comes in two steps, and the server's answer is an argument
//! of the second.

use rgbstd::persistence::{MemIndex, MemStash, MemState};
use vstd::prelude::*;

use crate::cipher::{
    cipher_takes, decrypt_payload, decrypted, encrypt_payload, fits_cipher, seals, BackupPubData,
};
use crate::envelope::{decode_backup, decodes, encode_backup, encodes, json_written, opened};
use crate::error::{bytes_result, result_view, Error, ErrorView, InternalError};
use crate::info::{
    is_backup_required, required_by, text_option, BackupInfo, VssBackupInfo,
};
use crate::payload::{
    payload_from, payload_of, restored_snapshot, snapshot_of, stock_from, WalletBackupPayload,
    WalletSnapshot,
};
use crate::stock::{stock_parts, RgbStock};

verus! {

/// The part of a wallet that backup and restore work on.
///
/// `C` is the client of the versioned storage server (VSS) that keeps backups.
pub struct Wallet<C> {
    /// The RGB stock, unless a running operation has taken it.
    pub rgb_stock: Option<RgbStock>,
    /// The client of the backup server, if one is configured.
    pub vss_client: Option<C>,
    /// Why the last upload failed, if it did.
    pub last_vss_backup_error: Option<String>,
    /// The fingerprint of the wallet's master key.
    pub master_fingerprint: String,
}

/// What is sent to the backup server.
#[derive(Debug)]
pub struct VssUpload {
    /// The payload as JSON.
    pub payload_json: Vec<u8>,
    /// The fingerprint of the wallet's master key.
    pub fingerprint: String,
}

/// An upload that failed.
#[derive(Debug)]
pub struct UploadFailure {
    /// The error.
    pub error: Error,
    /// The error as a text for the user.
    pub text: String,
}

/// The error of a backup while the stock is taken.
pub open spec fn stock_in_use() -> ErrorView {
    ErrorView::Internal { details: "RGB stock is currently in use (runtime active)"@ }
}

/// The error of an operation on the backup server where none is configured.
pub open spec fn vss_not_configured() -> ErrorView {
    ErrorView::Internal { details: "VSS backup not configured"@ }
}

/// The payload of a wallet.
pub open spec fn wallet_payload<S>(stock: Option<RgbStock>, state: S) -> Result<
    WalletBackupPayload<S, Seq<char>>,
    ErrorView,
> {
    match stock {
        Some(stock) => payload_of(stock, state),
        None => Err(stock_in_use()),
    }
}

/// Whether `r` is the payload of a wallet as JSON, for some JSON that
/// `write_payload` gives.
pub open spec fn serializes<S, W>(
    stock: Option<RgbStock>,
    state: S,
    write_payload: W,
    r: Result<Seq<u8>, ErrorView>,
) -> bool where W: FnOnce(WalletBackupPayload<S>) -> Result<Vec<u8>, String> {
    match wallet_payload(stock, state) {
        Err(e) => r == Err::<Seq<u8>, _>(e),
        Ok(payload) => exists|p: WalletBackupPayload<S>, json: Result<Vec<u8>, String>|
            p@ == payload && #[trigger] write_payload.ensures((p,), json) && r == json_written(
                json,
            ),
    }
}

/// Whether `r` can come of finishing a backup whose encrypted payload is
/// `ciphertext` with `pub_data`.
pub open spec fn finishes<H, U>(
    ciphertext: Seq<u8>,
    pub_data: &BackupPubData,
    write_pub_data: H,
    update_backup_info: U,
    r: Result<Seq<u8>, ErrorView>,
) -> bool where
    H: FnOnce(&BackupPubData) -> Result<Vec<u8>, String>,
    U: FnOnce(bool) -> Result<(), Error>,
 {
    exists|backup: Result<Seq<u8>, ErrorView>| #[trigger]
        encodes(ciphertext, pub_data, write_pub_data, backup) && match backup {
            Ok(_) => updates(update_backup_info, true, backup, r),
            Err(_) => r == backup,
        }
}

/// Whether `r` can come of backing up, given that the payload is `json`.
pub open spec fn backs_up_json<H, U>(
    json: Seq<u8>,
    password: Seq<char>,
    write_pub_data: H,
    update_backup_info: U,
    r: Result<Seq<u8>, ErrorView>,
) -> bool where
    H: FnOnce(&BackupPubData) -> Result<Vec<u8>, String>,
    U: FnOnce(bool) -> Result<(), Error>,
 {
    ||| r matches Err(e) && seals(json, password, Err(e))
    ||| exists|ciphertext: Seq<u8>, pub_data: BackupPubData|
        seals(json, password, Ok((ciphertext, pub_data@))) && #[trigger] finishes(
            ciphertext,
            &pub_data,
            write_pub_data,
            update_backup_info,
            r,
        )
}

/// Whether a backup with `pub_data` can be finished: the public data can be
/// written, and once they are, the record of backups can be updated.
pub open spec fn can_finish<H, U>(
    pub_data: &BackupPubData,
    write_pub_data: H,
    update_backup_info: U,
) -> bool where
    H: FnOnce(&BackupPubData) -> Result<Vec<u8>, String>,
    U: FnOnce(bool) -> Result<(), Error>,
 {
    &&& write_pub_data.requires((pub_data,))
    &&& forall|json: Result<Vec<u8>, String>| #[trigger]
        write_pub_data.ensures((pub_data,), json) && json is Ok ==> update_backup_info.requires(
            (true,),
        )
}

/// Whether the payload `json` can be backed up: the cipher takes it, and the
/// backup can be finished with whatever public data come of encrypting it.
pub open spec fn can_back_up_json<H, U>(
    json: Seq<u8>,
    password: Seq<char>,
    write_pub_data: H,
    update_backup_info: U,
) -> bool where
    H: FnOnce(&BackupPubData) -> Result<Vec<u8>, String>,
    U: FnOnce(bool) -> Result<(), Error>,
 {
    &&& cipher_takes(json.len() as int)
    &&& forall|ciphertext: Seq<u8>, pub_data: BackupPubData| #[trigger]
        seals(json, password, Ok((ciphertext, pub_data@))) ==> can_finish(
            &pub_data,
            write_pub_data,
            update_backup_info,
        )
}

/// Whether `r` is `done` after a successful update of the times of backups, or
/// the error of that update.
pub open spec fn updates<U, R>(
    update_backup_info: U,
    backed_up: bool,
    done: Result<R, ErrorView>,
    r: Result<R, ErrorView>,
) -> bool where U: FnOnce(bool) -> Result<(), Error> {
    exists|updated: Result<(), Error>| #[trigger]
        update_backup_info.ensures((backed_up,), updated) && r == match updated {
            Ok(_) => done,
            Err(e) => Err(e@),
        }
}

/// Whether restoring `payload` can turn the wallet `before` into `after` and
/// return `r`.
///
/// The snapshot is restored first. Only then is the stock read, and only if all
/// of it can be read does it replace the wallet's stock.
pub open spec fn restores_payload<S, C, R>(
    before: Wallet<C>,
    payload: WalletBackupPayload<S>,
    restore_from_snapshot: R,
    after: Wallet<C>,
    r: Result<(), ErrorView>,
) -> bool where R: FnOnce(WalletSnapshot<S>) -> Result<(), Error> {
    exists|restored: Result<(), Error>| #[trigger]
        restore_from_snapshot.ensures((snapshot_of(payload.state),), restored) && match restored {
            Err(e) => r == Err::<(), _>(e@) && after == before,
            Ok(_) => match payload@.parts() {
                Err(e) => r == Err::<(), _>(e) && after == before,
                Ok(parts) => r == Ok::<_, ErrorView>(()) && has_stock(before, parts, after),
            },
        }
}

/// Whether `after` is the wallet `before` with a stock of `parts`.
pub open spec fn has_stock<C>(
    before: Wallet<C>,
    parts: (MemStash, MemState, MemIndex),
    after: Wallet<C>,
) -> bool {
    &&& after.rgb_stock matches Some(stock) && stock_parts(stock) == parts
    &&& after == Wallet { rgb_stock: after.rgb_stock, ..before }
}

/// Whether restoring the payload that `json` holds, as `read_payload` reads it,
/// can turn the wallet `before` into `after` and return `r`.
pub open spec fn restores_json<S, C, P, R>(
    before: Wallet<C>,
    json: Seq<u8>,
    read_payload: P,
    restore_from_snapshot: R,
    after: Wallet<C>,
    r: Result<(), ErrorView>,
) -> bool where
    P: FnOnce(&[u8]) -> Option<WalletBackupPayload<S>>,
    R: FnOnce(WalletSnapshot<S>) -> Result<(), Error>,
 {
    exists|bytes: &[u8], payload: Option<WalletBackupPayload<S>>|
        bytes@ == json && #[trigger] read_payload.ensures((bytes,), payload) && match payload {
            None => r == Err::<(), _>(ErrorView::InvalidBackup) && after == before,
            Some(payload) => restores_payload(before, payload, restore_from_snapshot, after, r),
        }
}

/// Whether the payload that `json` holds can be restored: it can be read, and
/// the snapshot of what is read can be restored.
pub open spec fn can_restore_json<S, P, R>(
    json: Seq<u8>,
    read_payload: P,
    restore_from_snapshot: R,
) -> bool where
    P: FnOnce(&[u8]) -> Option<WalletBackupPayload<S>>,
    R: FnOnce(WalletSnapshot<S>) -> Result<(), Error>,
 {
    &&& forall|bytes: &[u8]| bytes@ == json ==> #[trigger] read_payload.requires((bytes,))
    &&& forall|bytes: &[u8], payload: Option<WalletBackupPayload<S>>|
        bytes@ == json && #[trigger] read_payload.ensures((bytes,), payload) && payload is Some
            ==> restore_from_snapshot.requires((snapshot_of(payload->0.state),))
}

/// Whether restoring `backup` can turn the wallet `before` into `after` and
/// return `r`.
pub open spec fn restores_backup<S, C, H, P, R>(
    before: Wallet<C>,
    backup: Seq<u8>,
    password: Seq<char>,
    read_pub_data: H,
    read_payload: P,
    restore_from_snapshot: R,
    after: Wallet<C>,
    r: Result<(), ErrorView>,
) -> bool where
    H: FnOnce(&[u8]) -> Option<BackupPubData>,
    P: FnOnce(&[u8]) -> Option<WalletBackupPayload<S>>,
    R: FnOnce(WalletSnapshot<S>) -> Result<(), Error>,
 {
    exists|decoded: Result<(BackupPubData, Seq<u8>), ErrorView>| #[trigger]
        decodes(backup, read_pub_data, decoded) && match decoded {
            Err(e) => r == Err::<(), _>(e) && after == before,
            Ok((pub_data, ciphertext)) => match decrypted(ciphertext, password, pub_data@) {
                Err(e) => r == Err::<(), _>(e) && after == before,
                Ok(json) => restores_json(
                    before,
                    json,
                    read_payload,
                    restore_from_snapshot,
                    after,
                    r,
                ),
            },
        }
}

/// What is sent to the backup server, as contracts speak of it: the payload as
/// JSON and the fingerprint.
pub open spec fn upload_result(r: Result<VssUpload, Error>) -> Result<
    (Seq<u8>, Seq<char>),
    ErrorView,
> {
    match r {
        Ok(upload) => Ok((upload.payload_json@, upload.fingerprint@)),
        Err(e) => Err(e@),
    }
}

/// The wallet after the server has answered an upload: it keeps the text of a
/// failure, and a success clears it.
pub open spec fn answered<C>(wallet: Wallet<C>, answer: Result<i64, UploadFailure>) -> Wallet<C> {
    Wallet {
        last_vss_backup_error: match answer {
            Ok(_) => None,
            Err(failure) => Some(failure.text),
        },
        ..wallet
    }
}

/// Whether the wallet is to be uploaded to the server that is configured: it is
/// if a backup is required or the server holds none. What the server holds does
/// not matter where a backup is required.
pub open spec fn initial_backup<C>(
    wallet: Wallet<C>,
    stored: Result<Option<BackupInfo>, Error>,
    server_version: Result<Option<i64>, Error>,
) -> Result<bool, ErrorView> {
    match (wallet.vss_client, required_by(stored), server_version) {
        (None, _, _) => Err(vss_not_configured()),
        (_, Err(e), _) => Err(e),
        (_, Ok(true), _) => Ok(true),
        (_, _, Err(e)) => Err(e@),
        (_, _, Ok(version)) => Ok(version is None),
    }
}

/// What ensuring an initial backup comes to, given the decision and, where it
/// was to upload, what the upload came to: the new version on the server, or
/// `None` where no upload was needed.
pub open spec fn initial_backup_version(
    decision: Result<bool, Error>,
    uploaded: Option<Result<i64, Error>>,
) -> Result<Option<i64>, ErrorView>
    recommends
        decision == Ok::<_, Error>(true) ==> uploaded is Some,
{
    match (decision, uploaded) {
        (Err(e), _) => Err(e@),
        (Ok(true), Some(Ok(version))) => Ok(Some(version)),
        (Ok(true), Some(Err(e))) => Err(e@),
        _ => Ok(None),
    }
}

/// The state of the backup on the server.
pub open spec fn vss_info<C>(
    wallet: Wallet<C>,
    server_version: Result<Option<i64>, Error>,
    stored: Result<Option<BackupInfo>, Error>,
) -> Result<VssBackupInfo<Seq<char>>, ErrorView> {
    match (wallet.vss_client, server_version, required_by(stored)) {
        (None, _, _) => Err(vss_not_configured()),
        (_, Err(e), _) => Err(e@),
        (_, _, Err(e)) => Err(e),
        (_, Ok(server_version), Ok(backup_required)) => Ok(
            VssBackupInfo {
                backup_exists: server_version is Some,
                server_version,
                backup_required,
                last_backup_error: text_option(wallet.last_vss_backup_error),
            },
        ),
    }
}

/// Finishes a local backup, given what encrypting the payload came to: puts the
/// ciphertext and the public data into one backup, and records that the wallet
/// was backed up. Where there is no backup, nothing is recorded.
pub fn finish_backup<H, U>(
    sealed: Result<(Vec<u8>, BackupPubData), Error>,
    write_pub_data: H,
    update_backup_info: U,
) -> (r: Result<Vec<u8>, Error>) where
    H: FnOnce(&BackupPubData) -> Result<Vec<u8>, String>,
    U: FnOnce(bool) -> Result<(), Error>,

    requires
        sealed matches Ok((_, pub_data)) ==> can_finish(
            &pub_data,
            write_pub_data,
            update_backup_info,
        ),
    ensures
        match sealed {
            Err(e) => bytes_result(r) == Err::<Seq<u8>, _>(e@),
            Ok((ciphertext, pub_data)) => finishes(
                ciphertext@,
                &pub_data,
                write_pub_data,
                update_backup_info,
                bytes_result(r),
            ),
        },
{
    let (ciphertext, pub_data) = match sealed {
        Ok(sealed) => sealed,
        Err(e) => {
            return Err(e);
        },
    };
    let backup = encode_backup(ciphertext.as_slice(), &pub_data, write_pub_data);
    assert(encodes(ciphertext@, &pub_data, write_pub_data, bytes_result(backup)));
    let backup = match backup {
        Ok(backup) => backup,
        Err(e) => {
            return Err(e);
        },
    };
    match update_backup_info(true) {
        Ok(_) => Ok(backup),
        Err(e) => Err(e),
    }
}

/// Ends what `ensure_initial_backup` began, given its decision and, where it
/// was to upload, what the upload came to. Returns the new version on the
/// server, or `None` where no upload was needed.
pub fn initial_backup_answered(
    decision: Result<bool, Error>,
    uploaded: Option<Result<i64, Error>>,
) -> (r: Result<Option<i64>, Error>)
    requires
        decision == Ok::<_, Error>(true) ==> uploaded is Some,
    ensures
        result_view(r) == initial_backup_version(decision, uploaded),
{
    match decision {
        Err(e) => Err(e),
        Ok(false) => Ok(None),
        Ok(true) => match uploaded {
            Some(Ok(version)) => Ok(Some(version)),
            Some(Err(e)) => Err(e),
            None => Ok(None),
        },
    }
}

impl<C> Wallet<C> {
    /// The payload of a backup: the given state and the wallet's stock.
    pub fn backup_payload<S>(&self, state: S) -> (r: Result<WalletBackupPayload<S>, Error>)
        ensures
            match r {
                Ok(payload) => wallet_payload(self.rgb_stock, state) == Ok::<_, ErrorView>(
                    payload@,
                ),
                Err(e) => wallet_payload(self.rgb_stock, state) == Err::<
                    WalletBackupPayload<S, Seq<char>>,
                    _,
                >(e@),
            },
    {
        match &self.rgb_stock {
            Some(stock) => payload_from(stock, state),
            None => Err(
                Error::Internal {
                    details: "RGB stock is currently in use (runtime active)".to_owned(),
                },
            ),
        }
    }

    /// The payload of a backup as JSON, for local backups and for the backup
    /// server.
    pub fn serialize_backup_payload<S, W>(&self, state: S, write_payload: W) -> (r: Result<
        Vec<u8>,
        Error,
    >) where W: FnOnce(WalletBackupPayload<S>) -> Result<Vec<u8>, String>
        requires
            forall|p: WalletBackupPayload<S>|
                wallet_payload(self.rgb_stock, state) == Ok::<_, ErrorView>(p@)
                    ==> #[trigger] write_payload.requires((p,)),
        ensures
            serializes(self.rgb_stock, state, write_payload, bytes_result(r)),
    {
        let payload = match self.backup_payload(state) {
            Ok(payload) => payload,
            Err(e) => {
                return Err(e);
            },
        };
        match write_payload(payload) {
            Ok(json) => Ok(json),
            Err(e) => Err(Error::Component(InternalError::JsonError(e))),
        }
    }

    /// Creates a password-protected backup of the wallet and then records that
    /// the wallet was backed up. Where there is no backup, nothing is recorded.
    pub fn backup<S, W, H, U>(
        &self,
        password: &str,
        state: S,
        write_payload: W,
        write_pub_data: H,
        update_backup_info: U,
    ) -> (r: Result<Vec<u8>, Error>) where
        W: FnOnce(WalletBackupPayload<S>) -> Result<Vec<u8>, String>,
        H: FnOnce(&BackupPubData) -> Result<Vec<u8>, String>,
        U: FnOnce(bool) -> Result<(), Error>,

        requires
            forall|p: WalletBackupPayload<S>|
                wallet_payload(self.rgb_stock, state) == Ok::<_, ErrorView>(p@)
                    ==> #[trigger] write_payload.requires((p,)),
            forall|json: Seq<u8>| #[trigger]
                serializes(self.rgb_stock, state, write_payload, Ok(json)) ==> can_back_up_json(
                    json,
                    password@,
                    write_pub_data,
                    update_backup_info,
                ),
        ensures
            exists|json: Result<Seq<u8>, ErrorView>| #[trigger]
                serializes(self.rgb_stock, state, write_payload, json) && match json {
                    Err(e) => bytes_result(r) == Err::<Seq<u8>, _>(e),
                    Ok(json) => backs_up_json(
                        json,
                        password@,
                        write_pub_data,
                        update_backup_info,
                        bytes_result(r),
                    ),
                },
    {
        let json = self.serialize_backup_payload(state, write_payload);
        assert(serializes(self.rgb_stock, state, write_payload, bytes_result(json)));
        let json = match json {
            Ok(json) => json,
            Err(e) => {
                return Err(e);
            },
        };
        let sealed = encrypt_payload(json.as_slice(), password);
        finish_backup(sealed, write_pub_data, update_backup_info)
    }

    /// Restores a payload: first the snapshot, then the stock.
    fn restore_payload<S, R>(
        &mut self,
        payload: WalletBackupPayload<S>,
        restore_from_snapshot: R,
    ) -> (r: Result<(), Error>) where R: FnOnce(WalletSnapshot<S>) -> Result<(), Error>
        requires
            restore_from_snapshot.requires((snapshot_of(payload.state),)),
        ensures
            restores_payload(
                *old(self),
                payload,
                restore_from_snapshot,
                *final(self),
                result_view(r),
            ),
    {
        let WalletBackupPayload {
            state,
            stock_stash_b64,
            stock_state_b64,
            stock_index_b64,
        } = payload;
        let restored = restore_from_snapshot(restored_snapshot(state));
        assert(restore_from_snapshot.ensures((snapshot_of(payload.state),), restored));
        match restored {
            Ok(_) => {},
            Err(e) => {
                return Err(e);
            },
        }
        match stock_from(
            stock_stash_b64.as_str(),
            stock_state_b64.as_str(),
            stock_index_b64.as_str(),
        ) {
            Ok(stock) => {
                self.rgb_stock = Some(stock);
                Ok(())
            },
            Err(e) => Err(e),
        }
    }

    /// Restores the payload that is read from `json`, given what fetching or
    /// decrypting the JSON came to.
    pub fn restore_json<S, P, R>(
        &mut self,
        json: Result<Vec<u8>, Error>,
        read_payload: P,
        restore_from_snapshot: R,
    ) -> (r: Result<(), Error>) where
        P: FnOnce(&[u8]) -> Option<WalletBackupPayload<S>>,
        R: FnOnce(WalletSnapshot<S>) -> Result<(), Error>,

        requires
            json matches Ok(json) ==> can_restore_json(json@, read_payload, restore_from_snapshot),
        ensures
            match json {
                Err(e) => *final(self) == *old(self) && result_view(r) == Err::<(), _>(e@),
                Ok(json) => restores_json(
                    *old(self),
                    json@,
                    read_payload,
                    restore_from_snapshot,
                    *final(self),
                    result_view(r),
                ),
            },
    {
        let json = match json {
            Ok(json) => json,
            Err(e) => {
                return Err(e);
            },
        };
        let bytes = json.as_slice();
        let payload = read_payload(bytes);
        assert(read_payload.ensures((bytes,), payload));
        match payload {
            Some(payload) => self.restore_payload(payload, restore_from_snapshot),
            None => Err(Error::InvalidBackup),
        }
    }

    /// Restores the wallet from a password-protected backup.
    ///
    /// The wallet must have been created with the same keys. Nothing is restored
    /// of a backup that does not decrypt or does not hold a payload.
    pub fn restore_backup<S, H, P, R>(
        &mut self,
        backup_bytes: &[u8],
        password: &str,
        read_pub_data: H,
        read_payload: P,
        restore_from_snapshot: R,
    ) -> (r: Result<(), Error>) where
        H: FnOnce(&[u8]) -> Option<BackupPubData>,
        P: FnOnce(&[u8]) -> Option<WalletBackupPayload<S>>,
        R: FnOnce(WalletSnapshot<S>) -> Result<(), Error>,

        requires
            forall|json: &[u8]|
                opened(backup_bytes@) is Ok && json@ == opened(backup_bytes@)->Ok_0.0
                    ==> #[trigger] read_pub_data.requires((json,)),
            forall|pub_data: BackupPubData, ciphertext: Seq<u8>| #[trigger]
                decodes(backup_bytes@, read_pub_data, Ok((pub_data, ciphertext))) ==> {
                    &&& fits_cipher(ciphertext, pub_data@)
                    &&& decrypted(ciphertext, password@, pub_data@) is Ok ==> can_restore_json(
                        decrypted(ciphertext, password@, pub_data@)->Ok_0,
                        read_payload,
                        restore_from_snapshot,
                    )
                },
        ensures
            restores_backup(
                *old(self),
                backup_bytes@,
                password@,
                read_pub_data,
                read_payload,
                restore_from_snapshot,
                *final(self),
                result_view(r),
            ),
    {
        let decoded = decode_backup(backup_bytes, read_pub_data);
        let (pub_data, ciphertext) = match decoded {
            Ok(decoded) => decoded,
            Err(e) => {
                return Err(e);
            },
        };
        let json = decrypt_payload(ciphertext, password, &pub_data);
        self.restore_json(json, read_payload, restore_from_snapshot)
    }

    /// Tells, by the stored times, whether the wallet has been modified since
    /// the last backup.
    pub fn backup_info(&self, stored: Result<Option<BackupInfo>, Error>) -> (r: Result<
        bool,
        Error,
    >)
        ensures
            result_view(r) == required_by(stored),
    {
        match stored {
            Ok(info) => Ok(is_backup_required(&info)),
            Err(e) => Err(e),
        }
    }

    /// Configures the client of the backup server.
    pub fn configure_vss_backup(&mut self, client: C)
        ensures
            *final(self) == (Wallet { vss_client: Some(client), ..*old(self) }),
    {
        self.vss_client = Some(client);
    }

    /// Disables backups on the server.
    pub fn disable_vss_backup(&mut self)
        ensures
            *final(self) == (Wallet { vss_client: None, ..*old(self) }),
    {
        self.vss_client = None;
    }

    /// The client of the backup server.
    pub fn configured_client(&self) -> (r: Result<&C, Error>)
        ensures
            match r {
                Ok(client) => self.vss_client == Some(*client),
                Err(e) => self.vss_client is None && e@ == vss_not_configured(),
            },
    {
        match &self.vss_client {
            Some(client) => Ok(client),
            None => Err(Error::Internal { details: "VSS backup not configured".to_owned() }),
        }
    }

    /// The first step of an upload to the backup server: makes what is to be
    /// sent, and then records that the wallet was backed up. Without a server or
    /// a payload, nothing is recorded.
    pub fn vss_backup<S, W, U>(&self, state: S, write_payload: W, update_backup_info: U) -> (r:
        Result<VssUpload, Error>) where
        W: FnOnce(WalletBackupPayload<S>) -> Result<Vec<u8>, String>,
        U: FnOnce(bool) -> Result<(), Error>,

        requires
            forall|p: WalletBackupPayload<S>|
                self.vss_client is Some && wallet_payload(self.rgb_stock, state) == Ok::<
                    _,
                    ErrorView,
                >(p@) ==> #[trigger] write_payload.requires((p,)),
            forall|json: Seq<u8>|
                self.vss_client is Some && #[trigger] serializes(
                    self.rgb_stock,
                    state,
                    write_payload,
                    Ok(json),
                ) ==> update_backup_info.requires((true,)),
        ensures
            match self.vss_client {
                None => upload_result(r) == Err::<(Seq<u8>, Seq<char>), _>(vss_not_configured()),
                Some(_) => exists|json: Result<Seq<u8>, ErrorView>| #[trigger]
                    serializes(self.rgb_stock, state, write_payload, json) && match json {
                        Err(e) => upload_result(r) == Err::<(Seq<u8>, Seq<char>), _>(e),
                        Ok(json) => updates(
                            update_backup_info,
                            true,
                            Ok((json, self.master_fingerprint@)),
                            upload_result(r),
                        ),
                    },
            },
    {
        match self.configured_client() {
            Ok(_) => {},
            Err(e) => {
                return Err(e);
            },
        }
        let json = self.serialize_backup_payload(state, write_payload);
        assert(serializes(self.rgb_stock, state, write_payload, bytes_result(json)));
        let payload_json = match json {
            Ok(json) => json,
            Err(e) => {
                return Err(e);
            },
        };
        let fingerprint = self.master_fingerprint.clone();
        match update_backup_info(true) {
            Ok(_) => Ok(VssUpload { payload_json, fingerprint }),
            Err(e) => Err(e),
        }
    }

    /// The second step of an upload to the backup server: takes the server's
    /// answer. If the upload failed, the record that the wallet was backed up
    /// is withdrawn, whether or not that succeeds, and the error is kept.
    pub fn vss_backup_answered<U>(
        &mut self,
        answer: Result<i64, UploadFailure>,
        update_backup_info: U,
    ) -> (r: Result<i64, Error>) where U: FnOnce(bool) -> Result<(), Error>
        requires
            answer is Err ==> update_backup_info.requires((false,)),
        ensures
            *final(self) == answered(*old(self), answer),
            match answer {
                Ok(version) => r == Ok::<_, Error>(version),
                Err(failure) => {
                    &&& r == Err::<i64, _>(failure.error)
                    &&& exists|updated: Result<(), Error>| #[trigger]
                        update_backup_info.ensures((false,), updated)
                },
            },
    {
        match answer {
            Ok(version) => {
                self.last_vss_backup_error = None;
                Ok(version)
            },
            Err(failure) => {
                let updated = update_backup_info(false);
                assert(update_backup_info.ensures((false,), updated));
                let UploadFailure { error, text } = failure;
                self.last_vss_backup_error = Some(text);
                Err(error)
            },
        }
    }

    /// Tells, by the stored times and the version that the server reported,
    /// whether the wallet is to be uploaded: it is if it has changes that are not
    /// yet backed up, or if the server holds no backup. To be asked after a
    /// server was configured, so that enabling backups never leaves an empty
    /// store, not even where the wallet was backed up locally before.
    pub fn ensure_initial_backup(
        &self,
        stored: Result<Option<BackupInfo>, Error>,
        server_version: Result<Option<i64>, Error>,
    ) -> (r: Result<bool, Error>)
        ensures
            result_view(r) == initial_backup(*self, stored, server_version),
    {
        match self.configured_client() {
            Ok(_) => {},
            Err(e) => {
                return Err(e);
            },
        }
        match self.backup_info(stored) {
            Ok(false) => {},
            decided => {
                return decided;
            },
        }
        match server_version {
            Ok(version) => Ok(version.is_none()),
            Err(e) => Err(e),
        }
    }

    /// Restores the wallet from what was downloaded from the backup server.
    /// Without a server or a payload, nothing is restored.
    pub fn vss_restore_backup<S, P, R>(
        &mut self,
        downloaded: Result<Vec<u8>, Error>,
        read_payload: P,
        restore_from_snapshot: R,
    ) -> (r: Result<(), Error>) where
        P: FnOnce(&[u8]) -> Option<WalletBackupPayload<S>>,
        R: FnOnce(WalletSnapshot<S>) -> Result<(), Error>,

        requires
            old(self).vss_client is Some && downloaded is Ok ==> can_restore_json(
                downloaded->Ok_0@,
                read_payload,
                restore_from_snapshot,
            ),
        ensures
            match (old(self).vss_client, downloaded) {
                (None, _) => *final(self) == *old(self) && result_view(r) == Err::<(), _>(
                    vss_not_configured(),
                ),
                (_, Err(e)) => *final(self) == *old(self) && result_view(r) == Err::<(), _>(e@),
                (_, Ok(json)) => restores_json(
                    *old(self),
                    json@,
                    read_payload,
                    restore_from_snapshot,
                    *final(self),
                    result_view(r),
                ),
            },
    {
        match self.configured_client() {
            Ok(_) => {},
            Err(e) => {
                return Err(e);
            },
        }
        self.restore_json(downloaded, read_payload, restore_from_snapshot)
    }

    /// The state of the backup on the server, given the version that the
    /// server reported and the stored times.
    pub fn vss_backup_info(
        &self,
        server_version: Result<Option<i64>, Error>,
        stored: Result<Option<BackupInfo>, Error>,
    ) -> (r: Result<VssBackupInfo, Error>)
        ensures
            match r {
                Ok(info) => vss_info(*self, server_version, stored) == Ok::<_, ErrorView>(info@),
                Err(e) => vss_info(*self, server_version, stored) == Err::<
                    VssBackupInfo<Seq<char>>,
                    _,
                >(e@),
            },
    {
        match self.configured_client() {
            Ok(_) => {},
            Err(e) => {
                return Err(e);
            },
        }
        let server_version = match server_version {
            Ok(server_version) => server_version,
            Err(e) => {
                return Err(e);
            },
        };
        let backup_required = match self.backup_info(stored) {
            Ok(backup_required) => backup_required,
            Err(e) => {
                return Err(e);
            },
        };
        let last_backup_error = match &self.last_vss_backup_error {
            Some(text) => Some(text.clone()),
            None => None,
        };
        Ok(
            VssBackupInfo {
                backup_exists: server_version.is_some(),
                server_version,
                backup_required,
                last_backup_error,
            },
        )
    }
}

} // verus!
