//! The backup server: whether to upload, what is uploaded, and what is known of
//! the backup on the server.

use vstd::prelude::*;

use crate::error::Error;
use crate::info::{BackupInfo, VssBackupInfo};
use crate::payload::WalletBackupPayload;
use crate::promises::errors::{is_internal, is_json_error, same_error};
use crate::promises::stock::{holds_stock, is_write_failure};
use crate::wallet::{initial_backup_answered, UploadFailure, VssUpload, Wallet};

verus! {

/// Configuring a client changes the client and nothing else, and is allowed at
/// any time.
pub proof fn configuring_sets_the_client<C>(wallet: &mut Wallet<C>, client: C)
    requires
        call_ensures(Wallet::<C>::configure_vss_backup, (wallet, client), ()),
    ensures
        final(wallet).vss_client == Some(client),
        final(wallet).rgb_stock == old(wallet).rgb_stock,
        final(wallet).last_vss_backup_error == old(wallet).last_vss_backup_error,
        final(wallet).master_fingerprint == old(wallet).master_fingerprint,
        call_requires(Wallet::<C>::configure_vss_backup, (wallet, client)),
{
}

/// Disabling backups on the server removes the client and changes nothing else,
/// and is allowed at any time.
pub proof fn disabling_removes_the_client<C>(wallet: &mut Wallet<C>)
    requires
        call_ensures(Wallet::<C>::disable_vss_backup, (wallet,), ()),
    ensures
        final(wallet).vss_client is None,
        final(wallet).rgb_stock == old(wallet).rgb_stock,
        final(wallet).last_vss_backup_error == old(wallet).last_vss_backup_error,
        final(wallet).master_fingerprint == old(wallet).master_fingerprint,
        call_requires(Wallet::<C>::disable_vss_backup, (wallet,)),
{
}

/// The client is the one that is configured, and its absence is reported.
pub proof fn client_is_the_configured_one<C>(wallet: Wallet<C>, r: Result<&C, Error>)
    requires
        call_ensures(Wallet::<C>::configured_client, (&wallet,), r),
    ensures
        r is Ok <==> wallet.vss_client is Some,
        r is Ok ==> *r->Ok_0 == wallet.vss_client->0,
        r is Err ==> is_internal(r->Err_0, "VSS backup not configured"@),
{
}

/// Without a server every operation on it is refused in the same words, before
/// anything is asked for, written or recorded: the calls are allowed whatever
/// `write_payload` and `update_backup_info` require of theirs.
pub proof fn refused_without_a_server<C, S, W, U>(
    wallet: Wallet<C>,
    state: S,
    write_payload: W,
    update_backup_info: U,
    stored: Result<Option<BackupInfo>, Error>,
    server_version: Result<Option<i64>, Error>,
    upload: Result<VssUpload, Error>,
    decision: Result<bool, Error>,
    info: Result<VssBackupInfo, Error>,
) where
    W: FnOnce(WalletBackupPayload<S>) -> Result<Vec<u8>, String>,
    U: FnOnce(bool) -> Result<(), Error>,

    requires
        wallet.vss_client is None,
        call_ensures(
            Wallet::<C>::vss_backup::<S, W, U>,
            (&wallet, state, write_payload, update_backup_info),
            upload,
        ),
        call_ensures(
            Wallet::<C>::ensure_initial_backup,
            (&wallet, stored, server_version),
            decision,
        ),
        call_ensures(Wallet::<C>::vss_backup_info, (&wallet, server_version, stored), info),
    ensures
        upload is Err && is_internal(upload->Err_0, "VSS backup not configured"@),
        decision is Err && is_internal(decision->Err_0, "VSS backup not configured"@),
        info is Err && is_internal(info->Err_0, "VSS backup not configured"@),
        call_requires(
            Wallet::<C>::vss_backup::<S, W, U>,
            (&wallet, state, write_payload, update_backup_info),
        ),
{
}

/// While the stock is taken, an upload is refused, and nothing is written or
/// recorded: the call is allowed whatever the callbacks require of theirs.
pub proof fn upload_needs_the_stock<C, S, W, U>(
    wallet: Wallet<C>,
    state: S,
    write_payload: W,
    update_backup_info: U,
    r: Result<VssUpload, Error>,
) where
    W: FnOnce(WalletBackupPayload<S>) -> Result<Vec<u8>, String>,
    U: FnOnce(bool) -> Result<(), Error>,

    requires
        wallet.vss_client is Some,
        wallet.rgb_stock is None,
        call_ensures(
            Wallet::<C>::vss_backup::<S, W, U>,
            (&wallet, state, write_payload, update_backup_info),
            r,
        ),
    ensures
        r is Err && is_internal(r->Err_0, "RGB stock is currently in use (runtime active)"@),
        call_requires(
            Wallet::<C>::vss_backup::<S, W, U>,
            (&wallet, state, write_payload, update_backup_info),
        ),
{
}

/// What is uploaded is the JSON that was written for the wallet's state and
/// stock, with the wallet's fingerprint, after the record was updated.
pub proof fn upload_holds_the_wallet<C, S, W, U>(
    wallet: Wallet<C>,
    state: S,
    write_payload: W,
    update_backup_info: U,
    r: Result<VssUpload, Error>,
) where
    W: FnOnce(WalletBackupPayload<S>) -> Result<Vec<u8>, String>,
    U: FnOnce(bool) -> Result<(), Error>,

    requires
        call_ensures(
            Wallet::<C>::vss_backup::<S, W, U>,
            (&wallet, state, write_payload, update_backup_info),
            r,
        ),
        r is Ok,
    ensures
        wallet.vss_client is Some,
        wallet.rgb_stock is Some,
        exists|payload: WalletBackupPayload<S>, json: Result<Vec<u8>, String>| #[trigger]
            write_payload.ensures((payload,), json) && json is Ok && json->Ok_0@
                == r->Ok_0.payload_json@ && payload.state == state && holds_stock(
                payload,
                wallet.rgb_stock->0,
            ),
        exists|updated: Result<(), Error>| #[trigger]
            update_backup_info.ensures((true,), updated) && updated is Ok,
        r->Ok_0.fingerprint@ == wallet.master_fingerprint@,
{
}

/// With a server and the stock, making an upload fails only because a part of
/// the stock or the payload cannot be written or the record cannot be updated,
/// and the failure is handed on.
pub proof fn upload_fails_only_with_a_reason<C, S, W, U>(
    wallet: Wallet<C>,
    state: S,
    write_payload: W,
    update_backup_info: U,
    r: Result<VssUpload, Error>,
) where
    W: FnOnce(WalletBackupPayload<S>) -> Result<Vec<u8>, String>,
    U: FnOnce(bool) -> Result<(), Error>,

    requires
        wallet.vss_client is Some,
        wallet.rgb_stock is Some,
        call_ensures(
            Wallet::<C>::vss_backup::<S, W, U>,
            (&wallet, state, write_payload, update_backup_info),
            r,
        ),
        r is Err,
    ensures
        ({
            ||| is_write_failure(wallet.rgb_stock->0, r->Err_0)
            ||| exists|payload: WalletBackupPayload<S>, json: Result<Vec<u8>, String>| #[trigger]
                write_payload.ensures((payload,), json) && json is Err && payload.state == state
                    && holds_stock(payload, wallet.rgb_stock->0) && is_json_error(
                    r->Err_0,
                    json->Err_0@,
                )
            ||| exists|updated: Result<(), Error>| #[trigger]
                update_backup_info.ensures((true,), updated) && updated is Err && same_error(
                    r->Err_0,
                    updated->Err_0,
                )
        }),
{
}

/// With a server, an upload is allowed wherever the JSON of the wallet's own
/// payload may be asked for and a backup may be recorded. The latter is needed
/// only where that JSON can be written: without it nothing is recorded.
pub proof fn upload_records_only_what_was_written<C, S, W, U>(
    wallet: Wallet<C>,
    state: S,
    write_payload: W,
    update_backup_info: U,
) where
    W: FnOnce(WalletBackupPayload<S>) -> Result<Vec<u8>, String>,
    U: FnOnce(bool) -> Result<(), Error>,

    requires
        forall|payload: WalletBackupPayload<S>|
            wallet.rgb_stock is Some && payload.state == state && holds_stock(
                payload,
                wallet.rgb_stock->0,
            ) ==> #[trigger] write_payload.requires((payload,)),
        !update_backup_info.requires((true,)) ==> forall|
            payload: WalletBackupPayload<S>,
            json: Result<Vec<u8>, String>,
        | #[trigger] write_payload.ensures((payload,), json) ==> json is Err,
    ensures
        call_requires(
            Wallet::<C>::vss_backup::<S, W, U>,
            (&wallet, state, write_payload, update_backup_info),
        ),
{
}

/// A successful upload is answered with its version and clears the last error.
/// The record stays: the call is allowed whatever `update_backup_info` requires
/// of its calls.
pub proof fn successful_upload_is_answered<C, U>(
    wallet: &mut Wallet<C>,
    version: i64,
    update_backup_info: U,
    r: Result<i64, Error>,
) where U: FnOnce(bool) -> Result<(), Error>
    requires
        call_ensures(
            Wallet::<C>::vss_backup_answered::<U>,
            (wallet, Ok(version), update_backup_info),
            r,
        ),
    ensures
        r == Ok::<i64, Error>(version),
        final(wallet).last_vss_backup_error is None,
        final(wallet).rgb_stock == old(wallet).rgb_stock,
        final(wallet).vss_client == old(wallet).vss_client,
        final(wallet).master_fingerprint == old(wallet).master_fingerprint,
        call_requires(
            Wallet::<C>::vss_backup_answered::<U>,
            (wallet, Ok(version), update_backup_info),
        ),
{
}

/// A failed upload is answered with its error, whose text is kept, and the
/// record is withdrawn, whatever comes of that.
pub proof fn failed_upload_is_answered<C, U>(
    wallet: &mut Wallet<C>,
    failure: UploadFailure,
    update_backup_info: U,
    r: Result<i64, Error>,
) where U: FnOnce(bool) -> Result<(), Error>
    requires
        call_ensures(
            Wallet::<C>::vss_backup_answered::<U>,
            (wallet, Err(failure), update_backup_info),
            r,
        ),
    ensures
        r is Err && same_error(r->Err_0, failure.error),
        final(wallet).last_vss_backup_error is Some,
        final(wallet).last_vss_backup_error->0@ == failure.text@,
        final(wallet).rgb_stock == old(wallet).rgb_stock,
        final(wallet).vss_client == old(wallet).vss_client,
        final(wallet).master_fingerprint == old(wallet).master_fingerprint,
        exists|updated: Result<(), Error>| #[trigger]
            update_backup_info.ensures((false,), updated),
        update_backup_info.requires((false,)) ==> call_requires(
            Wallet::<C>::vss_backup_answered::<U>,
            (wallet, Err(failure), update_backup_info),
        ),
{
}

/// Where a server is configured, the wallet is to be uploaded if it says that it
/// needs a backup, whatever the server holds; if it says that it needs none,
/// exactly if the server holds none. An error is handed on where it stands in
/// the way of that decision.
pub proof fn upload_is_decided_by_need_and_server<C>(
    wallet: Wallet<C>,
    stored: Result<Option<BackupInfo>, Error>,
    server_version: Result<Option<i64>, Error>,
    need: Result<bool, Error>,
    decision: Result<bool, Error>,
)
    requires
        wallet.vss_client is Some,
        call_ensures(Wallet::<C>::backup_info, (&wallet, stored), need),
        call_ensures(
            Wallet::<C>::ensure_initial_backup,
            (&wallet, stored, server_version),
            decision,
        ),
    ensures
        need == Ok::<bool, Error>(true) ==> decision == Ok::<bool, Error>(true),
        need == Ok::<bool, Error>(false) && server_version is Ok ==> decision == Ok::<bool, Error>(
            server_version->Ok_0 is None,
        ),
        need == Ok::<bool, Error>(false) && server_version is Err ==> decision is Err
            && same_error(decision->Err_0, server_version->Err_0),
        need is Err ==> decision is Err && same_error(decision->Err_0, need->Err_0),
        call_requires(
            Wallet::<C>::ensure_initial_backup,
            (&wallet, stored, server_version),
        ),
{
}

/// A decision to upload ends in the version or the error of the upload, a
/// decision not to ends in no version, and an error is handed on. What became of
/// an upload that was not decided on does not matter.
pub proof fn decision_ends_in_its_result(
    decision: Result<bool, Error>,
    uploaded: Option<Result<i64, Error>>,
    r: Result<Option<i64>, Error>,
)
    requires
        call_ensures(initial_backup_answered, (decision, uploaded), r),
    ensures
        decision == Ok::<bool, Error>(true) && uploaded is Some && uploaded->0 is Ok ==> r == Ok::<
            Option<i64>,
            Error,
        >(Some(uploaded->0->Ok_0)),
        decision == Ok::<bool, Error>(true) && uploaded is Some && uploaded->0 is Err ==> r is Err
            && same_error(r->Err_0, uploaded->0->Err_0),
        decision == Ok::<bool, Error>(false) ==> r == Ok::<Option<i64>, Error>(None),
        decision is Err ==> r is Err && same_error(r->Err_0, decision->Err_0),
        decision != Ok::<bool, Error>(true) || uploaded is Some ==> call_requires(
            initial_backup_answered,
            (decision, uploaded),
        ),
{
}

/// What is reported of the backup on the server is the version that the server
/// gave, whether there is one, whether the wallet says that it needs a backup,
/// and the error that the wallet keeps. It is reported exactly if the server and
/// the stored times can be read, and the server's error comes first.
pub proof fn server_state_is_reported_as_it_is<C>(
    wallet: Wallet<C>,
    stored: Result<Option<BackupInfo>, Error>,
    server_version: Result<Option<i64>, Error>,
    need: Result<bool, Error>,
    r: Result<VssBackupInfo, Error>,
)
    requires
        wallet.vss_client is Some,
        call_ensures(Wallet::<C>::backup_info, (&wallet, stored), need),
        call_ensures(Wallet::<C>::vss_backup_info, (&wallet, server_version, stored), r),
    ensures
        r is Ok <==> server_version is Ok && need is Ok,
        r is Ok ==> {
            &&& r->Ok_0.server_version == server_version->Ok_0
            &&& r->Ok_0.backup_exists == (server_version->Ok_0 is Some)
            &&& r->Ok_0.backup_required == need->Ok_0
            &&& r->Ok_0.last_backup_error is Some <==> wallet.last_vss_backup_error is Some
            &&& wallet.last_vss_backup_error is Some ==> r->Ok_0.last_backup_error->0@
                == wallet.last_vss_backup_error->0@
        },
        server_version is Err ==> same_error(r->Err_0, server_version->Err_0),
        server_version is Ok && need is Err ==> same_error(r->Err_0, need->Err_0),
        call_requires(Wallet::<C>::vss_backup_info, (&wallet, server_version, stored)),
{
}

/// After a failed upload the server's state is reported with the text of the
/// failure, and after a successful one without any.
pub proof fn answers_show_in_the_report<C, U>(
    wallet: &mut Wallet<C>,
    answer: Result<i64, UploadFailure>,
    update_backup_info: U,
    r: Result<i64, Error>,
    server_version: Result<Option<i64>, Error>,
    stored: Result<Option<BackupInfo>, Error>,
    report: Result<VssBackupInfo, Error>,
) where U: FnOnce(bool) -> Result<(), Error>
    requires
        call_ensures(
            Wallet::<C>::vss_backup_answered::<U>,
            (wallet, answer, update_backup_info),
            r,
        ),
        call_ensures(
            Wallet::<C>::vss_backup_info,
            (final(wallet), server_version, stored),
            report,
        ),
        report is Ok,
    ensures
        answer is Ok ==> report->Ok_0.last_backup_error is None,
        answer is Err ==> report->Ok_0.last_backup_error is Some
            && report->Ok_0.last_backup_error->0@ == answer->Err_0.text@,
{
}

} // verus!
